//! Statements against the server's `users` table, and the reading of the
//! rows that a name lookup returns.
use vstd::prelude::*;
use crate::text::{chars_of, has_prefix, push_char};

verus! {

/// Sets the database up and empties the `users` table.
pub const SETUP_SQL: &'static str = "

            PRAGMA journal_mode = WAL;
            PRAGMA synchronous = NORMAL;
            PRAGMA busy_timeout = 5000;


            CREATE TABLE IF NOT EXISTS users (
                username TEXT NOT NULL UNIQUE,
                address TEXT NOT NULL UNIQUE,
                is_radio BOOL NOT NULL DEFAULT 0
            );
            DELETE FROM users;
        ";

/// Lists every registered user with its address and radio flag.
pub const LIST_USERS_SQL: &'static str = "SELECT username, address, is_radio FROM users";

/// `s` with every single quote doubled: the body of an SQL string literal
/// that stands for `s`.
pub open spec fn sql_escape(s: Seq<char>) -> Seq<char>
    decreases s.len(),
{
    if s.len() == 0 {
        s
    } else if s.last() == '\'' {
        sql_escape(s.drop_last()) + seq!['\'', '\'']
    } else {
        sql_escape(s.drop_last()).push(s.last())
    }
}

/// The SQL string literal that stands for `s`.
pub open spec fn sql_literal(s: Seq<char>) -> Seq<char> {
    seq!['\''] + sql_escape(s) + seq!['\'']
}

/// Reads the rest of an SQL string literal whose opening quote is already
/// read: a doubled quote stands for one quote, and a lone quote closes the
/// literal. Gives the value and what follows the closing quote, or `None`
/// where the literal is not closed.
pub open spec fn read_quoted(t: Seq<char>) -> Option<(Seq<char>, Seq<char>)>
    decreases t.len(),
{
    if t.len() == 0 {
        None
    } else if t[0] == '\'' {
        if t.len() >= 2 && t[1] == '\'' {
            match read_quoted(t.skip(2)) {
                Some((v, r)) => Some((seq!['\''] + v, r)),
                None => None,
            }
        } else {
            Some((Seq::empty(), t.drop_first()))
        }
    } else {
        match read_quoted(t.drop_first()) {
            Some((v, r)) => Some((seq![t[0]] + v, r)),
            None => None,
        }
    }
}

/// Reads an SQL string literal at the start of `t`: its value and what
/// follows it.
pub open spec fn read_literal(t: Seq<char>) -> Option<(Seq<char>, Seq<char>)> {
    if t.len() > 0 && t[0] == '\'' {
        read_quoted(t.drop_first())
    } else {
        None
    }
}

/// Registers a user under `name` at `address` unless one is there already.
pub open spec fn insert_user_sql(name: Seq<char>, address: Seq<char>) -> Seq<char> {
    "INSERT OR IGNORE INTO users (username, address) VALUES ("@ + sql_literal(name) + ", "@
        + sql_literal(address) + ")"@
}

/// Renames the user at `address` to `name`.
pub open spec fn rename_user_sql(name: Seq<char>, address: Seq<char>) -> Seq<char> {
    "UPDATE users SET username = "@ + sql_literal(name) + " WHERE address = "@ + sql_literal(
        address,
    )
}

/// The stored form of a radio flag.
pub open spec fn radio_value(flag: bool) -> Seq<char> {
    if flag {
        "1"@
    } else {
        "0"@
    }
}

/// Sets the radio flag of the user at `address`.
pub open spec fn set_radio_sql(flag: bool, address: Seq<char>) -> Seq<char> {
    "UPDATE users SET is_radio = "@ + radio_value(flag) + " WHERE address = "@ + sql_literal(
        address,
    )
}

/// Removes the user at `address`.
pub open spec fn delete_user_sql(address: Seq<char>) -> Seq<char> {
    "DELETE FROM users WHERE address = "@ + sql_literal(address)
}

/// Looks up the name of the user at `address`.
pub open spec fn lookup_name_sql(address: Seq<char>) -> Seq<char> {
    "SELECT username FROM users WHERE address = "@ + sql_literal(address)
}

/// What a statement of one of the forms above does to the `users` table,
/// as SQL reads it.
pub enum SqlEffect {
    /// Add a row for `address` named `name`, unless a row conflicts.
    Register { address: Seq<char>, name: Seq<char> },
    /// Set the name of the row for `address`.
    Rename { address: Seq<char>, name: Seq<char> },
    /// Set the radio flag of the row for `address`.
    SetRadio { address: Seq<char>, flag: bool },
    /// Remove the row for `address`.
    Remove { address: Seq<char> },
    /// Read the name of the row for `address`.
    LookupName { address: Seq<char> },
    /// Set the table up and empty it.
    Reset,
    /// Any other text.
    Other,
}

/// The address in a tail ` WHERE address = '...'` that ends the statement.
pub open spec fn where_address(r: Seq<char>) -> Option<Seq<char>> {
    let w = " WHERE address = "@;
    if has_prefix(r, w) {
        match read_literal(r.skip(w.len() as int)) {
            Some((a, rest)) => if rest.len() == 0 {
                Some(a)
            } else {
                None
            },
            None => None,
        }
    } else {
        None
    }
}

/// The row values of a tail `'...', '...')` that ends an insertion.
pub open spec fn insert_values(r: Seq<char>) -> Option<(Seq<char>, Seq<char>)> {
    match read_literal(r) {
        Some((name, r1)) => if has_prefix(r1, ", "@) {
            match read_literal(r1.skip(2)) {
                Some((address, r2)) => if r2 == ")"@ {
                    Some((name, address))
                } else {
                    None
                },
                None => None,
            }
        } else {
            None
        },
        None => None,
    }
}

/// What the statement `st` does to the `users` table, read the way SQL
/// reads it.
pub open spec fn sql_effect(st: Seq<char>) -> SqlEffect {
    let insert = "INSERT OR IGNORE INTO users (username, address) VALUES ("@;
    let rename = "UPDATE users SET username = "@;
    let radio = "UPDATE users SET is_radio = "@;
    let delete = "DELETE FROM users"@;
    let lookup = "SELECT username FROM users"@;
    if has_prefix(st, insert) {
        match insert_values(st.skip(insert.len() as int)) {
            Some((name, address)) => SqlEffect::Register { address, name },
            None => SqlEffect::Other,
        }
    } else if has_prefix(st, rename) {
        match read_literal(st.skip(rename.len() as int)) {
            Some((name, r)) => match where_address(r) {
                Some(address) => SqlEffect::Rename { address, name },
                None => SqlEffect::Other,
            },
            None => SqlEffect::Other,
        }
    } else if has_prefix(st, radio) {
        let r = st.skip(radio.len() as int);
        if r.len() > 0 && (r[0] == '1' || r[0] == '0') {
            match where_address(r.drop_first()) {
                Some(address) => SqlEffect::SetRadio { address, flag: r[0] == '1' },
                None => SqlEffect::Other,
            }
        } else {
            SqlEffect::Other
        }
    } else if has_prefix(st, delete) {
        match where_address(st.skip(delete.len() as int)) {
            Some(address) => SqlEffect::Remove { address },
            None => SqlEffect::Other,
        }
    } else if has_prefix(st, lookup) {
        match where_address(st.skip(lookup.len() as int)) {
            Some(address) => SqlEffect::LookupName { address },
            None => SqlEffect::Other,
        }
    } else if st == SETUP_SQL@ {
        SqlEffect::Reset
    } else {
        SqlEffect::Other
    }
}

/// The name that a lookup yields: the last row read, or `fallback` where no
/// row came back.
pub open spec fn name_from_rows(rows: Seq<Seq<char>>, fallback: Seq<char>) -> Seq<char> {
    if rows.len() == 0 {
        fallback
    } else {
        rows.last()
    }
}

/// The views of a list of strings.
pub open spec fn string_views(v: Seq<String>) -> Seq<Seq<char>> {
    v.map_values(|s: String| s@)
}

/// A lookup that returned rows yields the last of them; the fallback is
/// used only where no row came back. In particular one row `[n]` yields `n`.
pub proof fn lemma_name_from_rows(rows: Seq<Seq<char>>, fallback: Seq<char>)
    ensures
        rows.len() > 0 ==> name_from_rows(rows, fallback) == rows[rows.len() - 1],
        rows.len() == 0 ==> name_from_rows(rows, fallback) == fallback,
        rows.len() == 1 ==> name_from_rows(rows, fallback) == rows[0],
{
}

proof fn lemma_sql_escape_concat(a: Seq<char>, b: Seq<char>)
    ensures
        sql_escape(a + b) == sql_escape(a) + sql_escape(b),
    decreases b.len(),
{
    if b.len() == 0 {
        assert(a + b =~= a);
        assert(sql_escape(a) + sql_escape(b) =~= sql_escape(a));
    } else {
        lemma_sql_escape_concat(a, b.drop_last());
        assert((a + b).drop_last() =~= a + b.drop_last());
        assert((a + b).last() == b.last());
    }
}

/// Reading back the escaped form of `s`, closed by a quote, gives `s` and
/// what follows, provided what follows does not start with a quote.
pub proof fn lemma_read_quoted_escape(s: Seq<char>, rest: Seq<char>)
    requires
        rest.len() == 0 || rest[0] != '\'',
    ensures
        read_quoted(sql_escape(s) + seq!['\''] + rest) == Some((s, rest)),
    decreases s.len(),
{
    let t = sql_escape(s) + seq!['\''] + rest;
    if s.len() == 0 {
        assert(t =~= seq!['\''] + rest);
        assert(t.drop_first() =~= rest);
    } else {
        let c = s[0];
        let s1 = s.drop_first();
        assert(s =~= seq![c] + s1);
        lemma_sql_escape_concat(seq![c], s1);
        assert(seq![c].drop_last() =~= Seq::<char>::empty());
        lemma_read_quoted_escape(s1, rest);
        assert(seq![c].last() == c);
        assert(sql_escape(Seq::<char>::empty()) =~= Seq::<char>::empty());
        let t1 = sql_escape(s1) + seq!['\''] + rest;
        if c == '\'' {
            assert(sql_escape(seq![c]) =~= seq!['\'', '\'']);
            assert(t =~= seq!['\'', '\''] + t1);
            assert(t.skip(2) =~= t1);
            assert(seq!['\''] + s1 =~= s);
        } else {
            assert(sql_escape(seq![c]) =~= seq![c]);
            assert(t =~= seq![c] + t1);
            assert(t.drop_first() =~= t1);
            assert(seq![c] + s1 =~= s);
        }
    }
}

/// Reading an SQL literal back gives its value and what follows it,
/// provided what follows does not start with a quote.
pub proof fn lemma_read_literal(s: Seq<char>, rest: Seq<char>)
    requires
        rest.len() == 0 || rest[0] != '\'',
    ensures
        read_literal(sql_literal(s) + rest) == Some((s, rest)),
{
    let t = sql_literal(s) + rest;
    lemma_read_quoted_escape(s, rest);
    assert(t[0] == '\'');
    assert(t.drop_first() =~= sql_escape(s) + seq!['\''] + rest);
}

proof fn lemma_where_address(address: Seq<char>)
    ensures
        where_address(" WHERE address = "@ + sql_literal(address)) == Some(address),
{
    let w = " WHERE address = "@;
    let r = w + sql_literal(address);
    assert(r.take(w.len() as int) =~= w);
    assert(r.skip(w.len() as int) =~= sql_literal(address) + Seq::<char>::empty());
    lemma_read_literal(address, Seq::empty());
}

/// The characters of the statement heads that tell the statement forms apart.
proof fn lemma_heads()
    ensures
        "INSERT OR IGNORE INTO users (username, address) VALUES ("@.len() > 17,
        "INSERT OR IGNORE INTO users (username, address) VALUES ("@[0] == 'I',
        "UPDATE users SET username = "@.len() > 17,
        "UPDATE users SET username = "@[0] == 'U',
        "UPDATE users SET username = "@[17] == 'u',
        "UPDATE users SET is_radio = "@.len() > 17,
        "UPDATE users SET is_radio = "@[0] == 'U',
        "UPDATE users SET is_radio = "@[17] == 'i',
        "DELETE FROM users"@.len() > 0,
        "DELETE FROM users"@[0] == 'D',
        "SELECT username FROM users"@.len() > 0,
        "SELECT username FROM users"@[0] == 'S',
        "DELETE FROM users WHERE address = "@ == "DELETE FROM users"@ + " WHERE address = "@,
        "SELECT username FROM users WHERE address = "@ == "SELECT username FROM users"@
            + " WHERE address = "@,
        " WHERE address = "@.len() > 0,
        " WHERE address = "@[0] == ' ',
        ", "@ == seq![',', ' '],
        ")"@ == seq![')'],
        "1"@ == seq!['1'],
        "0"@ == seq!['0'],
        SETUP_SQL@.len() > 0,
        SETUP_SQL@[0] == '\n',
{
    reveal_strlit("INSERT OR IGNORE INTO users (username, address) VALUES (");
    reveal_strlit("UPDATE users SET username = ");
    reveal_strlit("UPDATE users SET is_radio = ");
    reveal_strlit("DELETE FROM users");
    reveal_strlit("SELECT username FROM users");
    reveal_strlit("DELETE FROM users WHERE address = ");
    reveal_strlit("SELECT username FROM users WHERE address = ");
    reveal_strlit(" WHERE address = ");
    reveal_strlit(", ");
    reveal_strlit(")");
    reveal_strlit("1");
    reveal_strlit("0");
    reveal_strlit("

            PRAGMA journal_mode = WAL;
            PRAGMA synchronous = NORMAL;
            PRAGMA busy_timeout = 5000;


            CREATE TABLE IF NOT EXISTS users (
                username TEXT NOT NULL UNIQUE,
                address TEXT NOT NULL UNIQUE,
                is_radio BOOL NOT NULL DEFAULT 0
            );
            DELETE FROM users;
        ");
    assert("DELETE FROM users WHERE address = "@ =~= "DELETE FROM users"@ + " WHERE address = "@);
    assert("SELECT username FROM users WHERE address = "@ =~= "SELECT username FROM users"@
        + " WHERE address = "@);
}

proof fn lemma_not_prefix(st: Seq<char>, p: Seq<char>, i: int)
    requires
        0 <= i < p.len(),
        i < st.len(),
        st[i] != p[i],
    ensures
        !has_prefix(st, p),
{
    if p.len() <= st.len() {
        assert(st.take(p.len() as int)[i] != p[i]);
    }
}

proof fn lemma_insert_effect(name: Seq<char>, address: Seq<char>)
    ensures
        sql_effect(insert_user_sql(name, address)) == (SqlEffect::Register { address, name }),
{
    let insert = "INSERT OR IGNORE INTO users (username, address) VALUES ("@;
    lemma_heads();
    let si = insert_user_sql(name, address);
    assert(si.take(insert.len() as int) =~= insert);
    let tail = ", "@ + sql_literal(address) + ")"@;
    assert(si.skip(insert.len() as int) =~= sql_literal(name) + tail);
    lemma_read_literal(name, tail);
    assert(tail.take(2) =~= ", "@);
    assert(tail.skip(2) =~= sql_literal(address) + ")"@);
    lemma_read_literal(address, ")"@);
}

proof fn lemma_rename_effect(name: Seq<char>, address: Seq<char>)
    ensures
        sql_effect(rename_user_sql(name, address)) == (SqlEffect::Rename { address, name }),
{
    let insert = "INSERT OR IGNORE INTO users (username, address) VALUES ("@;
    let rename = "UPDATE users SET username = "@;
    lemma_heads();
    let sr = rename_user_sql(name, address);
    let tr = " WHERE address = "@ + sql_literal(address);
    assert(sr[0] == rename[0]);
    lemma_not_prefix(sr, insert, 0);
    assert(sr.take(rename.len() as int) =~= rename);
    assert(sr.skip(rename.len() as int) =~= sql_literal(name) + tr);
    lemma_read_literal(name, tr);
    lemma_where_address(address);
}

proof fn lemma_radio_effect(flag: bool, address: Seq<char>)
    ensures
        sql_effect(set_radio_sql(flag, address)) == (SqlEffect::SetRadio { address, flag }),
{
    let insert = "INSERT OR IGNORE INTO users (username, address) VALUES ("@;
    let rename = "UPDATE users SET username = "@;
    let radio = "UPDATE users SET is_radio = "@;
    lemma_heads();
    let sf = set_radio_sql(flag, address);
    let tr = " WHERE address = "@ + sql_literal(address);
    assert(sf[0] == radio[0]);
    assert(sf[17] == radio[17]);
    lemma_not_prefix(sf, insert, 0);
    lemma_not_prefix(sf, rename, 17);
    assert(sf.take(radio.len() as int) =~= radio);
    let rf = sf.skip(radio.len() as int);
    assert(rf =~= radio_value(flag) + tr);
    assert(rf.drop_first() =~= tr);
    lemma_where_address(address);
}

proof fn lemma_delete_effect(address: Seq<char>)
    ensures
        sql_effect(delete_user_sql(address)) == (SqlEffect::Remove { address }),
{
    let insert = "INSERT OR IGNORE INTO users (username, address) VALUES ("@;
    let rename = "UPDATE users SET username = "@;
    let radio = "UPDATE users SET is_radio = "@;
    let delete = "DELETE FROM users"@;
    lemma_heads();
    let sd = delete_user_sql(address);
    assert(sd[0] == 'D');
    lemma_not_prefix(sd, insert, 0);
    lemma_not_prefix(sd, rename, 0);
    lemma_not_prefix(sd, radio, 0);
    assert(sd.take(delete.len() as int) =~= delete);
    assert(sd.skip(delete.len() as int) =~= " WHERE address = "@ + sql_literal(address));
    lemma_where_address(address);
}

proof fn lemma_lookup_effect(address: Seq<char>)
    ensures
        sql_effect(lookup_name_sql(address)) == (SqlEffect::LookupName { address }),
{
    let insert = "INSERT OR IGNORE INTO users (username, address) VALUES ("@;
    let rename = "UPDATE users SET username = "@;
    let radio = "UPDATE users SET is_radio = "@;
    let delete = "DELETE FROM users"@;
    let lookup = "SELECT username FROM users"@;
    lemma_heads();
    let sl = lookup_name_sql(address);
    assert(sl[0] == 'S');
    lemma_not_prefix(sl, insert, 0);
    lemma_not_prefix(sl, rename, 0);
    lemma_not_prefix(sl, radio, 0);
    lemma_not_prefix(sl, delete, 0);
    assert(sl.take(lookup.len() as int) =~= lookup);
    assert(sl.skip(lookup.len() as int) =~= " WHERE address = "@ + sql_literal(address));
    lemma_where_address(address);
}

/// The set-up statement empties the table.
pub proof fn lemma_setup_effect()
    ensures
        sql_effect(SETUP_SQL@) == SqlEffect::Reset,
{
    lemma_heads();
    let st = SETUP_SQL@;
    lemma_not_prefix(st, "INSERT OR IGNORE INTO users (username, address) VALUES ("@, 0);
    lemma_not_prefix(st, "UPDATE users SET username = "@, 0);
    lemma_not_prefix(st, "UPDATE users SET is_radio = "@, 0);
    lemma_not_prefix(st, "DELETE FROM users"@, 0);
    lemma_not_prefix(st, "SELECT username FROM users"@, 0);
}

/// What each statement form does, as SQL reads it: the values spliced in
/// are read back exactly, whatever quotes they hold.
pub proof fn lemma_statement_effects(name: Seq<char>, address: Seq<char>, flag: bool)
    ensures
        sql_effect(insert_user_sql(name, address)) == (SqlEffect::Register { address, name }),
        sql_effect(rename_user_sql(name, address)) == (SqlEffect::Rename { address, name }),
        sql_effect(set_radio_sql(flag, address)) == (SqlEffect::SetRadio { address, flag }),
        sql_effect(delete_user_sql(address)) == (SqlEffect::Remove { address }),
        sql_effect(lookup_name_sql(address)) == (SqlEffect::LookupName { address }),
{
    lemma_insert_effect(name, address);
    lemma_rename_effect(name, address);
    lemma_radio_effect(flag, address);
    lemma_delete_effect(address);
    lemma_lookup_effect(address);
}

/// `s` with every single quote doubled.
pub fn escape_quotes(s: &str) -> (r: String)
    ensures
        r@ == sql_escape(s@),
{
    let v = chars_of(s);
    let mut r = String::new();
    let mut i: usize = 0;
    assert(v@.take(0) =~= Seq::<char>::empty());
    while i < v.len()
        invariant
            i <= v@.len(),
            v@ == s@,
            r@ == sql_escape(v@.take(i as int)),
        decreases v.len() - i,
    {
        assert(v@.take(i + 1).drop_last() =~= v@.take(i as int));
        if v[i] == '\'' {
            r.append("''");
            proof {
                reveal_strlit("''");
            }
        } else {
            push_char(&mut r, v[i]);
        }
        i = i + 1;
    }
    assert(v@.take(v@.len() as int) =~= v@);
    r
}

/// Appends the SQL string literal that stands for `value` to `r`.
fn append_literal(r: &mut String, value: &str)
    ensures
        final(r)@ == old(r)@ + sql_literal(value@),
{
    proof {
        reveal_strlit("'");
    }
    let body = escape_quotes(value);
    r.append("'");
    r.append(body.as_str());
    r.append("'");
}

/// Registers a user under `name` at `address` unless one is there already.
pub fn insert_user_statement(name: &str, address: &str) -> (r: String)
    ensures
        r@ == insert_user_sql(name@, address@),
        sql_effect(r@) == (SqlEffect::Register { address: address@, name: name@ }),
{
    let mut r = String::from_str("INSERT OR IGNORE INTO users (username, address) VALUES (");
    append_literal(&mut r, name);
    r.append(", ");
    append_literal(&mut r, address);
    r.append(")");
    proof {
        lemma_statement_effects(name@, address@, false);
    }
    r
}

/// Renames the user at `address` to `name`: exactly that row gets exactly
/// that name, whatever quotes either holds.
pub fn rename_user_statement(name: &str, address: &str) -> (r: String)
    ensures
        r@ == rename_user_sql(name@, address@),
        sql_effect(r@) == (SqlEffect::Rename { address: address@, name: name@ }),
{
    let mut r = String::from_str("UPDATE users SET username = ");
    append_literal(&mut r, name);
    r.append(" WHERE address = ");
    append_literal(&mut r, address);
    proof {
        lemma_statement_effects(name@, address@, false);
    }
    r
}

/// Sets the radio flag of the user at `address`.
pub fn set_radio_statement(flag: bool, address: &str) -> (r: String)
    ensures
        r@ == set_radio_sql(flag, address@),
        sql_effect(r@) == (SqlEffect::SetRadio { address: address@, flag }),
{
    let mut r = String::from_str("UPDATE users SET is_radio = ");
    if flag {
        r.append("1");
    } else {
        r.append("0");
    }
    r.append(" WHERE address = ");
    append_literal(&mut r, address);
    proof {
        lemma_statement_effects(Seq::empty(), address@, flag);
    }
    r
}

/// Removes the user at `address`.
pub fn delete_user_statement(address: &str) -> (r: String)
    ensures
        r@ == delete_user_sql(address@),
        sql_effect(r@) == (SqlEffect::Remove { address: address@ }),
{
    let mut r = String::from_str("DELETE FROM users WHERE address = ");
    append_literal(&mut r, address);
    proof {
        lemma_statement_effects(Seq::empty(), address@, false);
    }
    r
}

/// Looks up the name of the user at `address`.
pub fn lookup_name_statement(address: &str) -> (r: String)
    ensures
        r@ == lookup_name_sql(address@),
        sql_effect(r@) == (SqlEffect::LookupName { address: address@ }),
{
    let mut r = String::from_str("SELECT username FROM users WHERE address = ");
    append_literal(&mut r, address);
    proof {
        lemma_statement_effects(Seq::empty(), address@, false);
    }
    r
}

/// The name that a lookup yields: the last row read, or `fallback`.
pub fn name_from_lookup(rows: &Vec<String>, fallback: &str) -> (r: String)
    ensures
        r@ == name_from_rows(string_views(rows@), fallback@),
        rows@.len() > 0 ==> r@ == rows@.last()@,
        rows@.len() == 0 ==> r@ == fallback@,
{
    proof {
        lemma_name_from_rows(string_views(rows@), fallback@);
    }
    if rows.len() == 0 {
        String::from_str(fallback)
    } else {
        rows[rows.len() - 1].clone()
    }
}

} // verus!
