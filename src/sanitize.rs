use vstd::prelude::*;

verus! {

/// The characters that never survive into a path segment.
pub open spec fn is_forbidden(c: char) -> bool {
    c == '/' || c == '\\' || c == '(' || c == ')' || c == '{' || c == '}' || c == '['
        || c == ']' || c == ',' || c == '"' || c == '.' || c == ';' || c == ':' || c == '\''
        || c == '`' || c == '!' || c == '@' || c == '#' || c == '$' || c == '%' || c == '^'
        || c == '&' || c == '*' || c == '~'
}

/// `s` with every forbidden character removed, the others kept in order.
pub open spec fn sanitized(s: Seq<char>) -> Seq<char>
    decreases s.len(),
{
    if s.len() == 0 {
        Seq::empty()
    } else if is_forbidden(s.last()) {
        sanitized(s.drop_last())
    } else {
        sanitized(s.drop_last()).push(s.last())
    }
}

/// `s` with every double quote removed, the others kept in order.
pub open spec fn unquoted(s: Seq<char>) -> Seq<char>
    decreases s.len(),
{
    if s.len() == 0 {
        Seq::empty()
    } else if s.last() == '"' {
        unquoted(s.drop_last())
    } else {
        unquoted(s.drop_last()).push(s.last())
    }
}

pub open spec fn is_clean(s: Seq<char>) -> bool {
    forall|i: int| 0 <= i < s.len() ==> !is_forbidden(#[trigger] s[i])
}

fn char_is_forbidden(c: char) -> (r: bool)
    ensures
        r == is_forbidden(c),
{
    c == '/' || c == '\\' || c == '(' || c == ')' || c == '{' || c == '}' || c == '['
        || c == ']' || c == ',' || c == '"' || c == '.' || c == ';' || c == ':' || c == '\''
        || c == '`' || c == '!' || c == '@' || c == '#' || c == '$' || c == '%' || c == '^'
        || c == '&' || c == '*' || c == '~'
}

/// Turns a display string into a path segment: removes every forbidden
/// character (see `is_forbidden`), which also takes away the quotes of a
/// JSON string.
pub fn sanitize_names(s: String) -> (r: String)
    ensures
        r@ == sanitized(s@),
{
    let n = s.as_str().unicode_len();
    let mut out = String::new();
    let mut i: usize = 0;
    while i < n
        invariant
            n == s@.len(),
            i <= n,
            out@ == sanitized(s@.subrange(0, i as int)),
        decreases n - i,
    {
        let c = s.as_str().get_char(i);
        assert(s@.subrange(0, i + 1).drop_last() =~= s@.subrange(0, i as int));
        if !char_is_forbidden(c) {
            out.append(s.as_str().substring_char(i, i + 1));
            assert(s@.subrange(i as int, i + 1) =~= seq![c]);
        }
        i = i + 1;
    }
    assert(s@.subrange(0, n as int) =~= s@);
    out
}

/// Removes every double quote, as is done to a JSON string's text to get its contents.
pub fn strip_quotes(s: String) -> (r: String)
    ensures
        r@ == unquoted(s@),
{
    let n = s.as_str().unicode_len();
    let mut out = String::new();
    let mut i: usize = 0;
    while i < n
        invariant
            n == s@.len(),
            i <= n,
            out@ == unquoted(s@.subrange(0, i as int)),
        decreases n - i,
    {
        let c = s.as_str().get_char(i);
        assert(s@.subrange(0, i + 1).drop_last() =~= s@.subrange(0, i as int));
        if c != '"' {
            out.append(s.as_str().substring_char(i, i + 1));
            assert(s@.subrange(i as int, i + 1) =~= seq![c]);
        }
        i = i + 1;
    }
    assert(s@.subrange(0, n as int) =~= s@);
    out
}

/// Nothing that sanitizing leaves is forbidden.
pub proof fn lemma_sanitized_is_clean(s: Seq<char>)
    ensures
        is_clean(sanitized(s)),
    decreases s.len(),
{
    if s.len() > 0 {
        lemma_sanitized_is_clean(s.drop_last());
    }
}

/// A string without forbidden characters is left as it is.
pub proof fn lemma_sanitize_clean_is_identity(s: Seq<char>)
    requires
        is_clean(s),
    ensures
        sanitized(s) == s,
    decreases s.len(),
{
    if s.len() > 0 {
        assert(!is_forbidden(s[s.len() - 1]));
        lemma_sanitize_clean_is_identity(s.drop_last());
        assert(s.drop_last().push(s.last()) =~= s);
    }
}

/// Sanitizing twice gives what sanitizing once gives, and the result holds
/// none of the forbidden characters.
pub proof fn lemma_sanitize_idempotent(s: Seq<char>)
    ensures
        sanitized(sanitized(s)) == sanitized(s),
        forall|i: int| 0 <= i < sanitized(s).len() ==> !is_forbidden(#[trigger] sanitized(s)[i]),
{
    lemma_sanitized_is_clean(s);
    lemma_sanitize_clean_is_identity(sanitized(s));
}

} // verus!
