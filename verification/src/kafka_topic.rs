use vstd::prelude::*;

verus! {

/// The shell command, run inside the `zookeeper` container, that creates the
/// Kafka topic `new_topic` with one partition and replication factor one.
pub open spec fn create_topic_shell_command(new_topic: Seq<char>) -> Seq<char> {
    "cd usr/bin && kafka-topics --topic "@ + new_topic
        + " --create --zookeeper zookeeper:2181 --partitions 1 --replication-factor 1"@
}

/// The arguments given to `docker` to create a topic: run the shell command
/// in the `zookeeper` container, then `exit`.
pub open spec fn create_topic_args(new_topic: Seq<char>) -> Seq<Seq<char>> {
    seq![
        "exec"@,
        "-it"@,
        "zookeeper"@,
        "sh"@,
        "-c"@,
        create_topic_shell_command(new_topic),
        "exit"@,
    ]
}

/// The arguments of the `docker` command that creates the Kafka topic
/// `new_topic`.
pub fn kafka_new_topic_args(new_topic: &str) -> (args: Vec<String>)
    ensures
        args@.map_values(|a: String| a@) == create_topic_args(new_topic@),
{
    let mut command = String::from_str("cd usr/bin && kafka-topics --topic ");
    command.append(new_topic);
    command.append(" --create --zookeeper zookeeper:2181 --partitions 1 --replication-factor 1");
    let mut args: Vec<String> = Vec::new();
    args.push(String::from_str("exec"));
    args.push(String::from_str("-it"));
    args.push(String::from_str("zookeeper"));
    args.push(String::from_str("sh"));
    args.push(String::from_str("-c"));
    args.push(command);
    args.push(String::from_str("exit"));
    assert(args@.map_values(|a: String| a@) =~= create_topic_args(new_topic@));
    args
}

} // verus!
