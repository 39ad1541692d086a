use vstd::prelude::*;
use vstd::string::StringExecFns;
use crate::error::LlmError;
use crate::text::{
    chars_of, contains, contains_exec, starts_with, starts_with_exec, string_of, trim, trim_chars,
};

verus! {

/// The lowercase mapping of `s`, as `str::to_lowercase` gives it.
pub uninterp spec fn lower_of(s: Seq<char>) -> Seq<char>;

/// Relies on `str::to_lowercase`: Unicode's lowercase mapping, which depends on
/// the characters alone.
#[verifier::external_body]
fn lowercase(s: &str) -> (r: String)
    ensures
        r@ == lower_of(s@),
{
    s.to_lowercase()
}

/// `s` without backticks.
pub open spec fn drop_ticks(s: Seq<char>) -> Seq<char>
    decreases s.len(),
{
    if s.len() == 0 {
        s
    } else if s.last() == '`' {
        drop_ticks(s.drop_last())
    } else {
        drop_ticks(s.drop_last()).push(s.last())
    }
}

/// `s` with each "\r\n" made "\n".
pub open spec fn unify_newlines(s: Seq<char>) -> Seq<char>
    decreases s.len(),
{
    if s.len() == 0 {
        s
    } else if s.len() >= 2 && s[s.len() - 2] == '\r' && s.last() == '\n' {
        unify_newlines(s.take(s.len() - 2)).push('\n')
    } else {
        unify_newlines(s.drop_last()).push(s.last())
    }
}

/// The pieces of `s` between semicolons; there is always at least one.
pub open spec fn pieces(s: Seq<char>) -> Seq<Seq<char>>
    decreases s.len(),
{
    if s.len() == 0 {
        seq![Seq::empty()]
    } else {
        let p = pieces(s.drop_last());
        if s.last() == ';' {
            p.push(Seq::empty())
        } else {
            p.update(p.len() - 1, p.last().push(s.last()))
        }
    }
}

/// Whether lowercase text reads as a DESCRIBE statement.
pub open spec fn describe_like(lowered: Seq<char>) -> bool {
    contains(lowered, "describe "@) || starts_with(lowered, "describe"@) || starts_with(
        lowered,
        "desc "@,
    )
}

/// The statement that a piece gives: the piece trimmed and closed by a
/// semicolon, where it is not blank and reads as DESCRIBE.
pub open spec fn statement_of(piece: Seq<char>) -> Option<Seq<char>> {
    let t = trim(piece);
    if t.len() > 0 && describe_like(lower_of(t)) {
        Some(t.push(';'))
    } else {
        None
    }
}

/// The statements that `ps` give, in order.
pub open spec fn statements(ps: Seq<Seq<char>>) -> Seq<Seq<char>>
    decreases ps.len(),
{
    if ps.len() == 0 {
        Seq::empty()
    } else {
        let r = statements(ps.drop_last());
        match statement_of(ps.last()) {
            Some(x) => r.push(x),
            None => r,
        }
    }
}

/// The DESCRIBE statements in a response, in the order they appear.
pub open spec fn describe_statements(raw: Seq<char>) -> Seq<Seq<char>> {
    statements(pieces(unify_newlines(drop_ticks(raw))))
}

pub open spec fn texts(v: Seq<String>) -> Seq<Seq<char>> {
    v.map_values(|s: String| s@)
}

fn without_ticks(s: &Vec<char>) -> (r: Vec<char>)
    ensures
        r@ == drop_ticks(s@),
{
    let mut r: Vec<char> = Vec::new();
    let mut i: usize = 0;
    while i < s.len()
        invariant
            i <= s@.len(),
            r@ == drop_ticks(s@.take(i as int)),
        decreases s@.len() - i,
    {
        assert(s@.take(i + 1).drop_last() =~= s@.take(i as int));
        if s[i] != '`' {
            r.push(s[i]);
        }
        i += 1;
    }
    assert(s@.take(s@.len() as int) =~= s@);
    r
}

fn with_unified_newlines(s: &Vec<char>) -> (r: Vec<char>)
    ensures
        r@ == unify_newlines(s@),
{
    let n = s.len();
    let mut r: Vec<char> = Vec::new();
    let mut i: usize = 0;
    while i < n
        invariant
            n == s@.len(),
            i <= n,
            r@ == unify_newlines(s@.take(i as int)),
            0 < i < n ==> !(s@[i - 1] == '\r' && s@[i as int] == '\n'),
        decreases n - i,
    {
        if s[i] == '\r' && i + 1 < n && s[i + 1] == '\n' {
            assert(s@.take(i + 2).take(i as int) =~= s@.take(i as int));
            r.push('\n');
            i += 2;
        } else {
            assert(s@.take(i + 1).drop_last() =~= s@.take(i as int));
            r.push(s[i]);
            i += 1;
        }
    }
    assert(s@.take(n as int) =~= s@);
    r
}

/// Whether lowercase text reads as a DESCRIBE statement: it holds
/// "describe ", or starts with "describe" or with "desc ".
pub fn is_describe_lowered(lowered: &str) -> (r: bool)
    ensures
        r == describe_like(lowered@),
{
    let l = chars_of(lowered);
    contains_exec(&l, &chars_of("describe ")) || starts_with_exec(&l, &chars_of("describe"))
        || starts_with_exec(&l, &chars_of("desc "))
}

fn statement_of_piece(piece: &Vec<char>) -> (r: Option<String>)
    ensures
        match statement_of(piece@) {
            Some(t) => r matches Some(s) && s@ == t,
            None => r is None,
        },
{
    let mut t = trim_chars(piece);
    if t.len() == 0 {
        return None;
    }
    let ts = string_of(&t);
    if is_describe_lowered(lowercase(ts.as_str()).as_str()) {
        t.push(';');
        Some(string_of(&t))
    } else {
        None
    }
}

/// The DESCRIBE statements in a model's response: backticks are dropped,
/// "\r\n" becomes "\n", the text is cut at each semicolon, and each piece that
/// is not blank and reads as DESCRIBE is kept, trimmed and closed by a
/// semicolon. A response without any is refused with the response itself.
pub fn extract_describe_statements(raw: &str) -> (r: Result<Vec<String>, LlmError>)
    ensures
        describe_statements(raw@).len() == 0 ==> (r matches Err(
            LlmError::NoStatementsFound { raw: x },
        ) && x@ == raw@),
        describe_statements(raw@).len() > 0 ==> (r matches Ok(v) && texts(v@)
            == describe_statements(raw@)),
{
    let cleaned = with_unified_newlines(&without_ticks(&chars_of(raw)));
    let ghost c = cleaned@;
    let mut out: Vec<String> = Vec::new();
    let mut cur: Vec<char> = Vec::new();
    let mut i: usize = 0;
    while i < cleaned.len()
        invariant
            c == cleaned@,
            i <= c.len(),
            pieces(c.take(i as int)).len() >= 1,
            cur@ == pieces(c.take(i as int)).last(),
            texts(out@) == statements(pieces(c.take(i as int)).drop_last()),
        decreases c.len() - i,
    {
        let ghost ps = pieces(c.take(i as int));
        assert(c.take(i + 1).drop_last() =~= c.take(i as int));
        if cleaned[i] == ';' {
            match statement_of_piece(&cur) {
                Some(s) => {
                    out.push(s);
                },
                None => {},
            }
            assert(pieces(c.take(i + 1)).drop_last() =~= ps);
            assert(ps.drop_last().push(ps.last()) =~= ps);
            assert(texts(out@) =~= statements(ps));
            cur = Vec::new();
            assert(cur@ =~= pieces(c.take(i + 1)).last());
        } else {
            cur.push(cleaned[i]);
            assert(pieces(c.take(i + 1)).drop_last() =~= ps.drop_last());
            assert(cur@ =~= pieces(c.take(i + 1)).last());
        }
        i += 1;
    }
    let ghost ps = pieces(c.take(i as int));
    assert(c.take(i as int) =~= c);
    assert(ps.drop_last().push(ps.last()) =~= ps);
    match statement_of_piece(&cur) {
        Some(s) => {
            out.push(s);
        },
        None => {},
    }
    assert(texts(out@) =~= statements(ps));
    if out.len() == 0 {
        Err(LlmError::NoStatementsFound { raw: String::from_str(raw) })
    } else {
        Ok(out)
    }
}

} // verus!
