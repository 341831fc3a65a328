use vstd::prelude::*;
use crate::decimal::{decimal_string, decimal_text, law_decimal_roundtrip, parse_unsigned};
use vstd::utf8::encode_utf8;
use crate::table::KeyedTable;

verus! {

/// Request metadata: what the server records about each HTTP request and
/// forwards with the order to the relayer core.
pub struct Meta {
    pub metadata: KeyedTable<Option<String>>,
}

/// The metadata recorded for a request, as text: the `Content-Type` header,
/// the `Relayer` header, and the time the server received it in microseconds
/// since the Unix epoch.
pub open spec fn header_metadata(
    content_type: Option<String>,
    relayer: Option<String>,
    received_micros: u128,
) -> Map<Seq<char>, Option<Seq<char>>> {
    map![
        "CONTENT_TYPE"@ => option_text(content_type),
        "Relayer"@ => option_text(relayer),
        "request_server_time"@ => Some(decimal_text(received_micros as nat)),
    ]
}

/// The text of an optional string.
pub open spec fn option_text(v: Option<String>) -> Option<Seq<char>> {
    match v {
        Some(s) => Some(s@),
        None => None,
    }
}

/// The metadata of `meta` as text.
pub open spec fn metadata_text(meta: &Meta) -> Map<Seq<char>, Option<Seq<char>>> {
    meta.metadata.view().map_values(|v: Option<String>| option_text(v))
}

impl Meta {
    /// Metadata with no entries.
    pub fn new() -> (m: Self)
        ensures
            m.metadata.view() == Map::<Seq<char>, Option<String>>::empty(),
    {
        Meta { metadata: KeyedTable::new() }
    }

    /// The metadata of a request with the given headers, received at
    /// `received_micros`.
    pub fn from_headers(
        content_type: Option<String>,
        relayer: Option<String>,
        received_micros: u128,
    ) -> (m: Self)
        ensures
            metadata_text(&m) == header_metadata(content_type, relayer, received_micros),
            metadata_text(&m).dom() == set!["CONTENT_TYPE"@, "Relayer"@, "request_server_time"@],
            metadata_text(&m)["CONTENT_TYPE"@] == option_text(content_type),
            metadata_text(&m)["Relayer"@] == option_text(relayer),
            metadata_text(&m)["request_server_time"@] == Some(decimal_text(received_micros as nat)),
    {
        let ghost ct = content_type;
        let ghost rl = relayer;
        let mut m = Meta::new();
        m.metadata.insert(String::from_str("CONTENT_TYPE"), content_type);
        m.metadata.insert(String::from_str("Relayer"), relayer);
        m.metadata.insert(
            String::from_str("request_server_time"),
            Some(decimal_string(received_micros)),
        );
        assert(metadata_text(&m) =~= header_metadata(ct, rl, received_micros));
        proof {
            law_header_entries(ct, rl, received_micros);
        }
        m
    }
}

/// Each header is recorded as it was given, under its own key, beside the
/// receive time; nothing else is recorded.
pub proof fn law_header_entries(
    content_type: Option<String>,
    relayer: Option<String>,
    received_micros: u128,
)
    ensures
        header_metadata(content_type, relayer, received_micros).dom() == set![
            "CONTENT_TYPE"@,
            "Relayer"@,
            "request_server_time"@,
        ],
        header_metadata(content_type, relayer, received_micros)["CONTENT_TYPE"@] == option_text(
            content_type,
        ),
        header_metadata(content_type, relayer, received_micros)["Relayer"@] == option_text(relayer),
        header_metadata(content_type, relayer, received_micros)["request_server_time"@] == Some(
            decimal_text(received_micros as nat),
        ),
{
    reveal_strlit("CONTENT_TYPE");
    reveal_strlit("Relayer");
    reveal_strlit("request_server_time");
    assert("CONTENT_TYPE"@ != "Relayer"@) by {
        assert("CONTENT_TYPE"@[0] != "Relayer"@[0]);
    }
    assert("CONTENT_TYPE"@ != "request_server_time"@) by {
        assert("CONTENT_TYPE"@[0] != "request_server_time"@[0]);
    }
    assert("Relayer"@ != "request_server_time"@) by {
        assert("Relayer"@[0] != "request_server_time"@[0]);
    }
    assert(header_metadata(content_type, relayer, received_micros).dom() =~= set![
        "CONTENT_TYPE"@,
        "Relayer"@,
        "request_server_time"@,
    ]);
}

/// The receive time recorded in a request's metadata reads back, as a
/// `u128`, as the time it was recorded from.
pub proof fn law_received_time_reads_back(
    content_type: Option<String>,
    relayer: Option<String>,
    received_micros: u128,
)
    ensures
        header_metadata(content_type, relayer, received_micros).contains_key(
            "request_server_time"@,
        ),
        header_metadata(content_type, relayer, received_micros)["request_server_time"@]
            matches Some(text) && parse_unsigned(encode_utf8(text), u128::MAX as nat) == Some(
            received_micros as nat,
        ),
{
    law_decimal_roundtrip(received_micros as nat, u128::MAX as nat);
}

} // verus!
