//! The SQL of the game library and the decisions around running it: which statement to
//! run, with which bounds, and when to fall back to another.
use vstd::prelude::*;
use crate::game_tools::contains_seq;
use crate::text::{push_all, push_char};

verus! {

/// One statement that creates a `kind` (`TABLE` or `INDEX`) described by `rest`, unless
/// it exists.
pub open spec fn create_if_not_exists(kind: Seq<char>, rest: Seq<char>) -> Seq<char> {
    "CREATE "@ + kind + " IF NOT EXISTS "@ + rest
}

/// Statements one after the other.
pub open spec fn join_creates(stmts: Seq<(Seq<char>, Seq<char>)>) -> Seq<char>
    decreases stmts.len(),
{
    if stmts.len() == 0 {
        Seq::empty()
    } else {
        join_creates(stmts.drop_last()) + create_if_not_exists(stmts.last().0, stmts.last().1)
    }
}

/// The statements that create the table of games and its indexes, each as its kind and
/// what follows `IF NOT EXISTS`: the table first, then the indexes.
pub open spec fn game_table_statements() -> Seq<(Seq<char>, Seq<char>)> {
    seq![
        ("TABLE"@, "game_info (
        id INTEGER PRIMARY KEY AUTOINCREMENT,

        name TEXT,
        description TEXT,
        genre TEXT,
        developer TEXT,
        publisher TEXT,
        franchise TEXT,
        origin TEXT,
        rom_name TEXT,
        serial TEXT,

        core_path TEXT,
        rom_path TEXT,
        console_name TEXT,

        release_year INTEGER,
        release_month INTEGER,

        size INTEGER,
        crc32 INTEGER,

        rumble INTEGER DEFAULT 0,
        last_played_at INTEGER DEFAULT 0
    );

    "@),
        ("INDEX"@, "idx_game_crc32 ON game_info (crc32);
    "@),
        ("INDEX"@, "idx_game_size ON game_info (size);
    "@),
        ("INDEX"@, "idx_game_name ON game_info (name);
    "@),
        ("INDEX"@, "idx_game_serial ON game_info (serial);
    "@),
        ("INDEX"@, "idx_game_console_name ON game_info (console_name);
    "@),
        ("INDEX"@, "idx_game_last_played ON game_info (last_played_at DESC);

    "@),
        ("INDEX"@, "ux_game_crc_console ON game_info (crc32, console_name);
    "@),
    ]
}

/// The columns of a game that an insert sets, in order.
pub open spec fn inserted_columns() -> Seq<Seq<char>> {
    seq!["name"@, "description"@, "genre"@, "developer"@, "publisher"@, "franchise"@, "origin"@, "rom_name"@, "serial"@, "core_path"@, "rom_path"@, "console_name"@, "release_year"@, "release_month"@, "size"@, "crc32"@, "rumble"@]
}

/// Creates the table of games and its indexes, unless they exist: every statement of it is
/// a `CREATE ... IF NOT EXISTS`.
pub fn get_create_game_table_query() -> (r: &'static str)
    ensures
        r@ == "
    "@ + join_creates(game_table_statements()),
{
    proof {
        reveal_strlit("
    CREATE TABLE IF NOT EXISTS game_info (
        id INTEGER PRIMARY KEY AUTOINCREMENT,

        name TEXT,
        description TEXT,
        genre TEXT,
        developer TEXT,
        publisher TEXT,
        franchise TEXT,
        origin TEXT,
        rom_name TEXT,
        serial TEXT,

        core_path TEXT,
        rom_path TEXT,
        console_name TEXT,

        release_year INTEGER,
        release_month INTEGER,

        size INTEGER,
        crc32 INTEGER,

        rumble INTEGER DEFAULT 0,
        last_played_at INTEGER DEFAULT 0
    );

    CREATE INDEX IF NOT EXISTS idx_game_crc32 ON game_info (crc32);
    CREATE INDEX IF NOT EXISTS idx_game_size ON game_info (size);
    CREATE INDEX IF NOT EXISTS idx_game_name ON game_info (name);
    CREATE INDEX IF NOT EXISTS idx_game_serial ON game_info (serial);
    CREATE INDEX IF NOT EXISTS idx_game_console_name ON game_info (console_name);
    CREATE INDEX IF NOT EXISTS idx_game_last_played ON game_info (last_played_at DESC);

    CREATE INDEX IF NOT EXISTS ux_game_crc_console ON game_info (crc32, console_name);
    ");
        reveal_strlit("CREATE ");
        reveal_strlit(" IF NOT EXISTS ");
        reveal_strlit("TABLE");
        reveal_strlit("INDEX");
        reveal_strlit("
    ");
        reveal_strlit("game_info (
        id INTEGER PRIMARY KEY AUTOINCREMENT,

        name TEXT,
        description TEXT,
        genre TEXT,
        developer TEXT,
        publisher TEXT,
        franchise TEXT,
        origin TEXT,
        rom_name TEXT,
        serial TEXT,

        core_path TEXT,
        rom_path TEXT,
        console_name TEXT,

        release_year INTEGER,
        release_month INTEGER,

        size INTEGER,
        crc32 INTEGER,

        rumble INTEGER DEFAULT 0,
        last_played_at INTEGER DEFAULT 0
    );

    ");
        reveal_strlit("idx_game_crc32 ON game_info (crc32);
    ");
        reveal_strlit("idx_game_size ON game_info (size);
    ");
        reveal_strlit("idx_game_name ON game_info (name);
    ");
        reveal_strlit("idx_game_serial ON game_info (serial);
    ");
        reveal_strlit("idx_game_console_name ON game_info (console_name);
    ");
        reveal_strlit("idx_game_last_played ON game_info (last_played_at DESC);

    ");
        reveal_strlit("ux_game_crc_console ON game_info (crc32, console_name);
    ");
        reveal_with_fuel(join_creates, 9);
        assert("
    CREATE TABLE IF NOT EXISTS game_info (
        id INTEGER PRIMARY KEY AUTOINCREMENT,

        name TEXT,
        description TEXT,
        genre TEXT,
        developer TEXT,
        publisher TEXT,
        franchise TEXT,
        origin TEXT,
        rom_name TEXT,
        serial TEXT,

        core_path TEXT,
        rom_path TEXT,
        console_name TEXT,

        release_year INTEGER,
        release_month INTEGER,

        size INTEGER,
        crc32 INTEGER,

        rumble INTEGER DEFAULT 0,
        last_played_at INTEGER DEFAULT 0
    );

    CREATE INDEX IF NOT EXISTS idx_game_crc32 ON game_info (crc32);
    CREATE INDEX IF NOT EXISTS idx_game_size ON game_info (size);
    CREATE INDEX IF NOT EXISTS idx_game_name ON game_info (name);
    CREATE INDEX IF NOT EXISTS idx_game_serial ON game_info (serial);
    CREATE INDEX IF NOT EXISTS idx_game_console_name ON game_info (console_name);
    CREATE INDEX IF NOT EXISTS idx_game_last_played ON game_info (last_played_at DESC);

    CREATE INDEX IF NOT EXISTS ux_game_crc_console ON game_info (crc32, console_name);
    "@ =~= "
    "@ + join_creates(game_table_statements()));
    }
    "
    CREATE TABLE IF NOT EXISTS game_info (
        id INTEGER PRIMARY KEY AUTOINCREMENT,

        name TEXT,
        description TEXT,
        genre TEXT,
        developer TEXT,
        publisher TEXT,
        franchise TEXT,
        origin TEXT,
        rom_name TEXT,
        serial TEXT,

        core_path TEXT,
        rom_path TEXT,
        console_name TEXT,

        release_year INTEGER,
        release_month INTEGER,

        size INTEGER,
        crc32 INTEGER,

        rumble INTEGER DEFAULT 0,
        last_played_at INTEGER DEFAULT 0
    );

    CREATE INDEX IF NOT EXISTS idx_game_crc32 ON game_info (crc32);
    CREATE INDEX IF NOT EXISTS idx_game_size ON game_info (size);
    CREATE INDEX IF NOT EXISTS idx_game_name ON game_info (name);
    CREATE INDEX IF NOT EXISTS idx_game_serial ON game_info (serial);
    CREATE INDEX IF NOT EXISTS idx_game_console_name ON game_info (console_name);
    CREATE INDEX IF NOT EXISTS idx_game_last_played ON game_info (last_played_at DESC);

    CREATE INDEX IF NOT EXISTS ux_game_crc_console ON game_info (crc32, console_name);
    "
}

/// The table of games is created at most once, and holds what an insert sets: every
/// statement of the creating query is a `CREATE TABLE` or `CREATE INDEX` with `IF NOT
/// EXISTS`, the first creates `game_info` with an `id` key and a `last_played_at` that
/// defaults to 0, and each column the insert names is defined in it and named in the insert.
pub proof fn law_game_table_created_once()
    ensures
        forall|i: int|
            0 <= i < game_table_statements().len() ==> (#[trigger] game_table_statements()[i]).0 == "TABLE"@
                || game_table_statements()[i].0 == "INDEX"@,
        game_table_statements()[0].0 == "TABLE"@,
        game_table_statements()[0].1.take(11) == "game_info ("@,
        contains_seq(game_table_statements()[0].1, "\n        id INTEGER PRIMARY KEY"@),
        contains_seq(game_table_statements()[0].1, "\n        last_played_at INTEGER DEFAULT 0"@),
        forall|i: int|
            0 <= i < inserted_columns().len() ==> contains_seq(
                game_table_statements()[0].1,
                "\n        "@ + #[trigger] inserted_columns()[i] + " "@,
            ) && contains_seq("
        INSERT OR REPLACE INTO game_info (
            name,
            description,
            genre,
            developer,
            publisher,
            franchise,
            origin,
            rom_name,
            serial,
            core_path,
            rom_path,
            console_name,
            release_year,
            release_month,
            size,
            crc32,
            rumble
        ) VALUES (
            ?, ?, ?, ?, ?, ?, ?, ?, ?, ?, ?, ?, ?, ?, ?, ?, ?
        );
        "@, inserted_columns()[i]),
{
    let t = game_table_statements()[0].1;
    let ins = "
        INSERT OR REPLACE INTO game_info (
            name,
            description,
            genre,
            developer,
            publisher,
            franchise,
            origin,
            rom_name,
            serial,
            core_path,
            rom_path,
            console_name,
            release_year,
            release_month,
            size,
            crc32,
            rumble
        ) VALUES (
            ?, ?, ?, ?, ?, ?, ?, ?, ?, ?, ?, ?, ?, ?, ?, ?, ?
        );
        "@;
    reveal_strlit("game_info (
        id INTEGER PRIMARY KEY AUTOINCREMENT,

        name TEXT,
        description TEXT,
        genre TEXT,
        developer TEXT,
        publisher TEXT,
        franchise TEXT,
        origin TEXT,
        rom_name TEXT,
        serial TEXT,

        core_path TEXT,
        rom_path TEXT,
        console_name TEXT,

        release_year INTEGER,
        release_month INTEGER,

        size INTEGER,
        crc32 INTEGER,

        rumble INTEGER DEFAULT 0,
        last_played_at INTEGER DEFAULT 0
    );

    ");
    reveal_strlit("
        INSERT OR REPLACE INTO game_info (
            name,
            description,
            genre,
            developer,
            publisher,
            franchise,
            origin,
            rom_name,
            serial,
            core_path,
            rom_path,
            console_name,
            release_year,
            release_month,
            size,
            crc32,
            rumble
        ) VALUES (
            ?, ?, ?, ?, ?, ?, ?, ?, ?, ?, ?, ?, ?, ?, ?, ?, ?
        );
        ");
    reveal_strlit("TABLE");
    reveal_strlit("INDEX");
    reveal_strlit("game_info (");
    reveal_strlit("\n        id INTEGER PRIMARY KEY");
    assert(t.subrange(11, 11 + ("\n        id INTEGER PRIMARY KEY"@).len() as int) =~= "\n        id INTEGER PRIMARY KEY"@);
    reveal_strlit("\n        last_played_at INTEGER DEFAULT 0");
    assert(t.subrange(478, 478 + ("\n        last_played_at INTEGER DEFAULT 0"@).len() as int) =~= "\n        last_played_at INTEGER DEFAULT 0"@);
    reveal_strlit("\n        ");
    reveal_strlit(" ");
    reveal_strlit("name");
    assert(t.subrange(58, 58 + ("\n        "@ + "name"@ + " "@).len() as int) =~= "\n        "@ + "name"@ + " "@);
    assert(ins.subrange(56, 56 + ("name"@).len() as int) =~= "name"@);
    reveal_strlit("description");
    assert(t.subrange(77, 77 + ("\n        "@ + "description"@ + " "@).len() as int) =~= "\n        "@ + "description"@ + " "@);
    assert(ins.subrange(74, 74 + ("description"@).len() as int) =~= "description"@);
    reveal_strlit("genre");
    assert(t.subrange(103, 103 + ("\n        "@ + "genre"@ + " "@).len() as int) =~= "\n        "@ + "genre"@ + " "@);
    assert(ins.subrange(99, 99 + ("genre"@).len() as int) =~= "genre"@);
    reveal_strlit("developer");
    assert(t.subrange(123, 123 + ("\n        "@ + "developer"@ + " "@).len() as int) =~= "\n        "@ + "developer"@ + " "@);
    assert(ins.subrange(118, 118 + ("developer"@).len() as int) =~= "developer"@);
    reveal_strlit("publisher");
    assert(t.subrange(147, 147 + ("\n        "@ + "publisher"@ + " "@).len() as int) =~= "\n        "@ + "publisher"@ + " "@);
    assert(ins.subrange(141, 141 + ("publisher"@).len() as int) =~= "publisher"@);
    reveal_strlit("franchise");
    assert(t.subrange(171, 171 + ("\n        "@ + "franchise"@ + " "@).len() as int) =~= "\n        "@ + "franchise"@ + " "@);
    assert(ins.subrange(164, 164 + ("franchise"@).len() as int) =~= "franchise"@);
    reveal_strlit("origin");
    assert(t.subrange(195, 195 + ("\n        "@ + "origin"@ + " "@).len() as int) =~= "\n        "@ + "origin"@ + " "@);
    assert(ins.subrange(187, 187 + ("origin"@).len() as int) =~= "origin"@);
    reveal_strlit("rom_name");
    assert(t.subrange(216, 216 + ("\n        "@ + "rom_name"@ + " "@).len() as int) =~= "\n        "@ + "rom_name"@ + " "@);
    assert(ins.subrange(207, 207 + ("rom_name"@).len() as int) =~= "rom_name"@);
    reveal_strlit("serial");
    assert(t.subrange(239, 239 + ("\n        "@ + "serial"@ + " "@).len() as int) =~= "\n        "@ + "serial"@ + " "@);
    assert(ins.subrange(229, 229 + ("serial"@).len() as int) =~= "serial"@);
    reveal_strlit("core_path");
    assert(t.subrange(261, 261 + ("\n        "@ + "core_path"@ + " "@).len() as int) =~= "\n        "@ + "core_path"@ + " "@);
    assert(ins.subrange(249, 249 + ("core_path"@).len() as int) =~= "core_path"@);
    reveal_strlit("rom_path");
    assert(t.subrange(285, 285 + ("\n        "@ + "rom_path"@ + " "@).len() as int) =~= "\n        "@ + "rom_path"@ + " "@);
    assert(ins.subrange(272, 272 + ("rom_path"@).len() as int) =~= "rom_path"@);
    reveal_strlit("console_name");
    assert(t.subrange(308, 308 + ("\n        "@ + "console_name"@ + " "@).len() as int) =~= "\n        "@ + "console_name"@ + " "@);
    assert(ins.subrange(294, 294 + ("console_name"@).len() as int) =~= "console_name"@);
    reveal_strlit("release_year");
    assert(t.subrange(336, 336 + ("\n        "@ + "release_year"@ + " "@).len() as int) =~= "\n        "@ + "release_year"@ + " "@);
    assert(ins.subrange(320, 320 + ("release_year"@).len() as int) =~= "release_year"@);
    reveal_strlit("release_month");
    assert(t.subrange(366, 366 + ("\n        "@ + "release_month"@ + " "@).len() as int) =~= "\n        "@ + "release_month"@ + " "@);
    assert(ins.subrange(346, 346 + ("release_month"@).len() as int) =~= "release_month"@);
    reveal_strlit("size");
    assert(t.subrange(398, 398 + ("\n        "@ + "size"@ + " "@).len() as int) =~= "\n        "@ + "size"@ + " "@);
    assert(ins.subrange(373, 373 + ("size"@).len() as int) =~= "size"@);
    reveal_strlit("crc32");
    assert(t.subrange(420, 420 + ("\n        "@ + "crc32"@ + " "@).len() as int) =~= "\n        "@ + "crc32"@ + " "@);
    assert(ins.subrange(391, 391 + ("crc32"@).len() as int) =~= "crc32"@);
    reveal_strlit("rumble");
    assert(t.subrange(444, 444 + ("\n        "@ + "rumble"@ + " "@).len() as int) =~= "\n        "@ + "rumble"@ + " "@);
    assert(ins.subrange(410, 410 + ("rumble"@).len() as int) =~= "rumble"@);
    assert(t.take(11) =~= "game_info ("@);
}

/// Inserts one game, replacing a row it conflicts with; its seventeen columns are bound in
/// order.
pub fn get_insert_game_query() -> (r: &'static str)
    ensures
        r@ == "
        INSERT OR REPLACE INTO game_info (
            name,
            description,
            genre,
            developer,
            publisher,
            franchise,
            origin,
            rom_name,
            serial,
            core_path,
            rom_path,
            console_name,
            release_year,
            release_month,
            size,
            crc32,
            rumble
        ) VALUES (
            ?, ?, ?, ?, ?, ?, ?, ?, ?, ?, ?, ?, ?, ?, ?, ?, ?
        );
        "@,
{
    "
        INSERT OR REPLACE INTO game_info (
            name,
            description,
            genre,
            developer,
            publisher,
            franchise,
            origin,
            rom_name,
            serial,
            core_path,
            rom_path,
            console_name,
            release_year,
            release_month,
            size,
            crc32,
            rumble
        ) VALUES (
            ?, ?, ?, ?, ?, ?, ?, ?, ?, ?, ?, ?, ?, ?, ?, ?, ?
        );
        "
}

/// Deletes every game.
pub fn delete_all_games_query() -> (r: &'static str)
    ensures
        r@ == "DELETE FROM game_info;"@,
{
    "DELETE FROM game_info;"
}

/// The names of the consoles that have games, each once, in order.
pub fn get_select_console_names_query() -> (r: &'static str)
    ensures
        r@ == "
        SELECT DISTINCT console_name
        FROM game_info
        WHERE console_name IS NOT NULL
        ORDER BY console_name;
    "@,
{
    "
        SELECT DISTINCT console_name
        FROM game_info
        WHERE console_name IS NOT NULL
        ORDER BY console_name;
    "
}

/// One page of the games that have a ROM, the most recently played first; the limit and the
/// offset are bound in that order.
pub fn get_game_pagination_query() -> (r: &'static str)
    ensures
        r@ == "
    SELECT
        crc32,
        name,
        rom_path,
        core_path,
        console_name,
        last_played_at
    FROM game_info
    WHERE rom_path IS NOT NULL
    ORDER BY last_played_at DESC NULLS LAST
    LIMIT ? OFFSET ?
    "@,
{
    "
    SELECT
        crc32,
        name,
        rom_path,
        core_path,
        console_name,
        last_played_at
    FROM game_info
    WHERE rom_path IS NOT NULL
    ORDER BY last_played_at DESC NULLS LAST
    LIMIT ? OFFSET ?
    "
}

/// `n` placeholders separated by commas.
pub open spec fn placeholders(n: nat) -> Seq<char>
    decreases n,
{
    if n == 0 {
        Seq::empty()
    } else if n == 1 {
        seq!['?']
    } else {
        placeholders((n - 1) as nat) + seq![',', '?']
    }
}

/// The games whose CRC32 is one of `count` values bound in order; `None` for no value,
/// where nothing needs to be asked.
pub fn select_by_crc32_query(count: usize) -> (r: Option<String>)
    ensures
        r is Some <==> count > 0,
        r matches Some(q) ==> q@ == "SELECT * FROM game_info WHERE crc32 IN ("@ + placeholders(
            count as nat,
        ) + ")"@,
{
    if count == 0 {
        return None;
    }
    let mut q = String::new();
    push_all(&mut q, "SELECT * FROM game_info WHERE crc32 IN (");
    let ghost head = q@;
    push_char(&mut q, '?');
    assert(q@ == head + placeholders(1));
    let mut i: usize = 1;
    while i < count
        invariant
            1 <= i <= count,
            q@ == head + placeholders(i as nat),
        decreases count - i,
    {
        push_char(&mut q, ',');
        push_char(&mut q, '?');
        assert(q@ =~= head + placeholders((i + 1) as nat));
        i = i + 1;
    }
    push_all(&mut q, ")");
    Some(q)
}

/// The limit and the offset of page `page` (counted from one; page zero reads as the first)
/// of `page_size` games each.
pub fn pagination_bounds(page: u32, page_size: u32) -> (r: (i64, i64))
    requires
        (if page > 0 { page - 1 } else { 0 }) * page_size <= u32::MAX,
    ensures
        r.0 == page_size,
        r.1 == (if page > 0 { page - 1 } else { 0 }) * page_size,
{
    let offset = page.saturating_sub(1) * page_size;
    (page_size as i64, offset as i64)
}

/// A step in moving a game's ROM and core paths.
#[derive(PartialEq, Eq, Structural, Clone, Copy)]
pub enum PathUpdate {
    /// Update the rows with this CRC32.
    ByCrc32(u32),
    /// Update the rows with the game's ROM name.
    ByRomName,
    /// Finished, with this many rows changed.
    Done(usize),
}

/// The first step: by the CRC32 when the game has one, else by the ROM name.
pub fn first_path_update(crc32: Option<u32>) -> (r: PathUpdate)
    ensures
        r == (match crc32 {
            Some(c) => PathUpdate::ByCrc32(c),
            None => PathUpdate::ByRomName,
        }),
{
    match crc32 {
        Some(c) => PathUpdate::ByCrc32(c),
        None => PathUpdate::ByRomName,
    }
}

/// After the update by CRC32 changed `updated` rows: finished if it changed any, else the
/// ROM name is tried.
pub fn after_crc32_update(updated: usize) -> (r: PathUpdate)
    ensures
        r == (if updated > 0 { PathUpdate::Done(updated) } else { PathUpdate::ByRomName }),
{
    if updated > 0 {
        PathUpdate::Done(updated)
    } else {
        PathUpdate::ByRomName
    }
}

} // verus!
