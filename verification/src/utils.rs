use vstd::prelude::*;
use crate::types::PositionType;
use crate::table::KeyedTable;

verus! {

/// Sign used for a position in the liquidation-price formula.
pub open spec fn spec_position_side(position_type: PositionType) -> int {
    match position_type {
        PositionType::LONG => -1,
        PositionType::SHORT => 1,
    }
}

/// The side of a position as used by the liquidation price: `-1` for a long
/// position and `1` for a short one.
pub fn positionside(position_type: &PositionType) -> (side: i32)
    ensures
        side == spec_position_side(*position_type),
{
    match position_type {
        PositionType::LONG => -1,
        PositionType::SHORT => 1,
    }
}

} // verus!

verus! {

/// The relayer's table of string settings.
pub struct LocalDbString {
    pub table: KeyedTable<String>,
}

impl LocalDbString {
    /// An empty table.
    pub fn new() -> (db: Self)
        ensures
            db.table.view() == Map::<Seq<char>, String>::empty(),
    {
        LocalDbString { table: KeyedTable::new() }
    }
}

/// The value stored under `key`. The key must have an entry.
pub fn get_localdb_string(db: &LocalDbString, key: &str) -> (data: String)
    requires
        db.table.view().contains_key(key@),
    ensures
        data == db.table.view()[key@],
{
    match db.table.get(key) {
        Some(v) => v.clone(),
        None => String::new(),
    }
}

/// Stores `value` under `key`, replacing what was stored there.
pub fn set_localdb_string(db: &mut LocalDbString, key: &str, value: String)
    ensures
        final(db).table.view() == old(db).table.view().insert(key@, value),
{
    db.table.insert(key.to_owned(), value);
}

} // verus!
