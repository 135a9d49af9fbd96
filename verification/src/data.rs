use vstd::prelude::*;
use vstd::string::StringExecFns;

verus! {

/// What is kept about one guild: its id, and the role that a member must
/// hold to get a chime, where the guild has set one.
#[derive(Clone, Copy, Debug, PartialEq, Eq, Structural)]
pub struct GuildDetails {
    pub id: u64,
    pub blocked_role_id: Option<u64>,
}

impl Default for GuildDetails {
    fn default() -> (d: Self)
        ensures
            d == (GuildDetails { id: 0, blocked_role_id: None }),
    {
        GuildDetails { id: 0, blocked_role_id: None }
    }
}

/// The id as the database's signed column holds it: the same 64 bits.
pub open spec fn stored_id(id: u64) -> i64 {
    if id <= i64::MAX as u64 {
        id as i64
    } else {
        (id as int - 0x1_0000_0000_0000_0000) as i64
    }
}

/// The id that a value of the database's signed column stands for.
pub open spec fn loaded_id(value: i64) -> u64 {
    if value >= 0 {
        value as u64
    } else {
        (value as int + 0x1_0000_0000_0000_0000) as u64
    }
}

/// The id as the database's signed column holds it.
pub fn to_stored_id(id: u64) -> (r: i64)
    ensures
        r == stored_id(id),
{
    if id <= 0x7fff_ffff_ffff_ffff {
        id as i64
    } else {
        let low: u64 = id - 0x8000_0000_0000_0000;
        (low as i64) + i64::MIN
    }
}

/// The id that a value of the database's signed column stands for.
pub fn from_stored_id(value: i64) -> (r: u64)
    ensures
        r == loaded_id(value),
{
    if value >= 0 {
        value as u64
    } else {
        let low: i64 = value - i64::MIN;
        (low as u64) + 0x8000_0000_0000_0000
    }
}

/// An id comes back from the database as it went in.
pub proof fn lemma_id_round_trip(id: u64)
    ensures
        loaded_id(stored_id(id)) == id,
{
}

/// A column value goes back into the database as it came out.
pub proof fn lemma_stored_round_trip(value: i64)
    ensures
        stored_id(loaded_id(value)) == value,
{
}

impl GuildDetails {
    /// The columns of the guild table.
    pub fn get_schema() -> (s: String)
        ensures
            s@ == "id BIGINT PRIMARY KEY, blocked_role_id BIGINT"@,
    {
        "id BIGINT PRIMARY KEY, blocked_role_id BIGINT".to_string()
    }

    /// The details that a row of the guild table holds.
    pub fn from_row(id: i64, blocked_role_id: Option<i64>) -> (d: GuildDetails)
        ensures
            d.id == loaded_id(id),
            d.blocked_role_id == (match blocked_role_id {
                Some(role) => Some(loaded_id(role)),
                None => None,
            }),
    {
        GuildDetails {
            id: from_stored_id(id),
            blocked_role_id: match blocked_role_id {
                Some(role) => Some(from_stored_id(role)),
                None => None,
            },
        }
    }

    /// The row of the guild table that holds these details.
    pub fn to_row(&self) -> (row: (i64, Option<i64>))
        ensures
            row.0 == stored_id(self.id),
            row.1 == (match self.blocked_role_id {
                Some(role) => Some(stored_id(role)),
                None => None,
            }),
    {
        (
            to_stored_id(self.id),
            match self.blocked_role_id {
                Some(role) => Some(to_stored_id(role)),
                None => None,
            },
        )
    }

    /// The details of guild `guild_id` once `role_id` has been made its
    /// restricted role, whatever was on record before.
    pub fn restricted_to(existing: Option<GuildDetails>, guild_id: u64, role_id: u64) -> (d:
        GuildDetails)
        ensures
            d == (GuildDetails { id: guild_id, blocked_role_id: Some(role_id) }),
    {
        let mut details = match existing {
            Some(found) => found,
            None => GuildDetails::default(),
        };
        details.id = guild_id;
        details.blocked_role_id = Some(role_id);
        details
    }
}

/// The role that a session is restricted to, from what is on record of it.
pub fn restriction(details: Option<GuildDetails>) -> (role: Option<u64>)
    ensures
        role == (match details {
            Some(d) => d.blocked_role_id,
            None => None,
        }),
{
    match details {
        Some(d) => d.blocked_role_id,
        None => None,
    }
}

/// The statement that makes sure the guild table is there.
pub fn create_table_statement(table_name: &str) -> (s: String)
    ensures
        s@ == "CREATE TABLE IF NOT EXISTS "@ + table_name@ + " ("@
            + "id BIGINT PRIMARY KEY, blocked_role_id BIGINT"@ + ")"@,
{
    let mut s = "CREATE TABLE IF NOT EXISTS ".to_string();
    s.append(table_name);
    s.append(" (");
    let schema = GuildDetails::get_schema();
    s.append(schema.as_str());
    s.append(")");
    s
}

/// The statement that reads one guild's row; its one parameter is the id.
pub fn select_statement(table_name: &str) -> (s: String)
    ensures
        s@ == "SELECT id, blocked_role_id FROM "@ + table_name@ + " WHERE id = $1::BIGINT"@,
{
    let mut s = "SELECT id, blocked_role_id FROM ".to_string();
    s.append(table_name);
    s.append(" WHERE id = $1::BIGINT");
    s
}

/// The statement that writes one guild's row, new or not; its parameters
/// are the id and the restricted role.
pub fn upsert_statement(table_name: &str) -> (s: String)
    ensures
        s@ == "INSERT INTO "@ + table_name@
            + " (id,blocked_role_id) VALUES ($1::BIGINT, $2::BIGINT) ON CONFLICT (id) DO UPDATE SET blocked_role_id = EXCLUDED.blocked_role_id"@,
{
    let mut s = "INSERT INTO ".to_string();
    s.append(table_name);
    s.append(
        " (id,blocked_role_id) VALUES ($1::BIGINT, $2::BIGINT) ON CONFLICT (id) DO UPDATE SET blocked_role_id = EXCLUDED.blocked_role_id",
    );
    s
}

} // verus!
