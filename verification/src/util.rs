//! Request-mapping helpers: trimming, field normalization, length checks.
//!
//! Inbound string fields are trimmed before use; a field that becomes empty
//! after trimming is treated as absent rather than as a request to clear the
//! stored value.

use vstd::prelude::*;
use vstd::string::StringSliceAdditionalSpecFns;

use crate::error::Error;

verus! {

/// Whether `c` is a whitespace code point (the Unicode `White_Space` set).
pub open spec fn is_space_spec(c: char) -> bool {
    ||| c == '\u{0009}'
    ||| c == '\u{000A}'
    ||| c == '\u{000B}'
    ||| c == '\u{000C}'
    ||| c == '\u{000D}'
    ||| c == ' '
    ||| c == '\u{0085}'
    ||| c == '\u{00A0}'
    ||| c == '\u{1680}'
    ||| c == '\u{2000}'
    ||| c == '\u{2001}'
    ||| c == '\u{2002}'
    ||| c == '\u{2003}'
    ||| c == '\u{2004}'
    ||| c == '\u{2005}'
    ||| c == '\u{2006}'
    ||| c == '\u{2007}'
    ||| c == '\u{2008}'
    ||| c == '\u{2009}'
    ||| c == '\u{200A}'
    ||| c == '\u{2028}'
    ||| c == '\u{2029}'
    ||| c == '\u{202F}'
    ||| c == '\u{205F}'
    ||| c == '\u{3000}'
}

/// Executable test for [`is_space_spec`].
#[verifier::when_used_as_spec(is_space_spec)]
pub fn is_space(c: char) -> (r: bool)
    ensures
        r == is_space_spec(c),
{
    c == '\u{0009}' || c == '\u{000A}' || c == '\u{000B}' || c == '\u{000C}' || c == '\u{000D}'
        || c == ' ' || c == '\u{0085}' || c == '\u{00A0}' || c == '\u{1680}' || c == '\u{2000}'
        || c == '\u{2001}' || c == '\u{2002}' || c == '\u{2003}' || c == '\u{2004}'
        || c == '\u{2005}' || c == '\u{2006}' || c == '\u{2007}' || c == '\u{2008}'
        || c == '\u{2009}' || c == '\u{200A}' || c == '\u{2028}' || c == '\u{2029}'
        || c == '\u{202F}' || c == '\u{205F}' || c == '\u{3000}'
}

/// `s` without its leading whitespace.
pub open spec fn trim_start_spec(s: Seq<char>) -> Seq<char>
    decreases s.len(),
{
    if s.len() > 0 && is_space_spec(s[0]) {
        trim_start_spec(s.drop_first())
    } else {
        s
    }
}

/// `s` without its trailing whitespace.
pub open spec fn trim_end_spec(s: Seq<char>) -> Seq<char>
    decreases s.len(),
{
    if s.len() > 0 && is_space_spec(s.last()) {
        trim_end_spec(s.drop_last())
    } else {
        s
    }
}

/// `s` without leading and trailing whitespace.
pub open spec fn trim_spec(s: Seq<char>) -> Seq<char> {
    trim_end_spec(trim_start_spec(s))
}

proof fn lemma_trim_start_subrange(s: Seq<char>, i: int)
    requires
        0 <= i <= s.len(),
        forall|k: int| 0 <= k < i ==> is_space_spec(s[k]),
        i < s.len() ==> !is_space_spec(s[i]),
    ensures
        trim_start_spec(s) =~= s.subrange(i, s.len() as int),
    decreases i,
{
    if i == 0 {
        if s.len() > 0 && is_space_spec(s[0]) {
            assert(!is_space_spec(s[0]));
        }
        assert(trim_start_spec(s) =~= s.subrange(0, s.len() as int));
    } else {
        assert(is_space_spec(s[0]));
        let t = s.drop_first();
        assert(forall|k: int| 0 <= k < i - 1 ==> is_space_spec(t[k]));
        lemma_trim_start_subrange(t, i - 1);
        assert(trim_start_spec(s) == trim_start_spec(t));
        assert(t.subrange(i - 1, t.len() as int) =~= s.subrange(i, s.len() as int));
    }
}

proof fn lemma_trim_end_subrange(s: Seq<char>, j: int)
    requires
        0 <= j <= s.len(),
        forall|k: int| j <= k < s.len() ==> is_space_spec(s[k]),
        j > 0 ==> !is_space_spec(s[j - 1]),
    ensures
        trim_end_spec(s) =~= s.subrange(0, j),
    decreases s.len(),
{
    if j == s.len() {
        if s.len() > 0 && is_space_spec(s.last()) {
            assert(!is_space_spec(s[j - 1]));
        }
        assert(trim_end_spec(s) =~= s.subrange(0, j));
    } else {
        assert(is_space_spec(s.last()));
        let t = s.drop_last();
        assert(forall|k: int| j <= k < t.len() ==> t[k] == s[k]);
        lemma_trim_end_subrange(t, j);
        assert(trim_end_spec(s) == trim_end_spec(t));
        assert(t.subrange(0, j) =~= s.subrange(0, j));
    }
}

/// Returns `s` without leading and trailing whitespace.
pub fn trim(s: &str) -> (r: String)
    ensures
        r@ == trim_spec(s@),
{
    let n = s.unicode_len();
    let mut i: usize = 0;
    while i < n && is_space(s.get_char(i))
        invariant
            n == s@.len(),
            0 <= i <= n,
            forall|k: int| 0 <= k < i ==> is_space_spec(s@[k]),
        decreases n - i,
    {
        i = i + 1;
    }
    let mut j: usize = n;
    while j > i && is_space(s.get_char(j - 1))
        invariant
            n == s@.len(),
            i <= j <= n,
            forall|k: int| j <= k < n ==> is_space_spec(s@[k]),
        decreases j,
    {
        j = j - 1;
    }
    proof {
        lemma_trim_start_subrange(s@, i as int);
        let t = s@.subrange(i as int, s@.len() as int);
        assert(forall|k: int| j - i <= k < t.len() ==> t[k] == s@[k + i]);
        lemma_trim_end_subrange(t, j - i);
        assert(t.subrange(0, j - i) =~= s@.subrange(i as int, j as int));
    }
    let out = s.substring_char(i, j);
    out.to_owned()
}

/// A present string field is trimmed; one that is empty after trimming is
/// treated as absent.
pub open spec fn norm_field_spec(f: Option<Seq<char>>) -> Option<Seq<char>> {
    match f {
        Option::Some(s) => if trim_spec(s).len() == 0 {
            Option::None
        } else {
            Option::Some(trim_spec(s))
        },
        Option::None => Option::None,
    }
}

/// Spec-level view of an optional string field.
pub open spec fn field_view(f: Option<String>) -> Option<Seq<char>> {
    match f {
        Option::Some(s) => Option::Some(s@),
        Option::None => Option::None,
    }
}

/// Trims a present field and drops it entirely if it trims to nothing.
pub fn non_empty_trimmed(f: &Option<String>) -> (r: Option<String>)
    ensures
        field_view(r) == norm_field_spec(field_view(*f)),
{
    match f {
        Option::Some(s) => {
            let t = trim(s.as_str());
            if t.as_str().unicode_len() == 0 {
                Option::None
            } else {
                Option::Some(t)
            }
        },
        Option::None => Option::None,
    }
}

/// Rejects a present field whose byte length exceeds `maximum_length`.
pub fn check_length(field_name: &'static str, field: Option<&str>, maximum_length: u64) -> (r:
    Result<(), Error>)
    ensures
        match r {
            Ok(()) => match field {
                Option::Some(s) => s.spec_bytes().len() <= maximum_length,
                Option::None => true,
            },
            Err(e) => field is Some && field.unwrap().spec_bytes().len() > maximum_length && e
                == (Error::TooManyCharacters { field: field_name, maximum_length }),
        },
{
    if let Option::Some(s) = field {
        let bytes = s.as_bytes();
        if bytes.len() as u64 > maximum_length {
            return Err(Error::TooManyCharacters { field: field_name, maximum_length });
        }
    }
    Ok(())
}

/// The pieces of `s` between its commas, in order. Splitting keeps empty
/// pieces: a string of n commas yields n + 1 pieces.
pub open spec fn split_commas_spec(s: Seq<char>) -> Seq<Seq<char>>
    decreases s.len(),
{
    if s.len() == 0 {
        seq![Seq::<char>::empty()]
    } else if s[0] == ',' {
        seq![Seq::<char>::empty()] + split_commas_spec(s.drop_first())
    } else {
        let rest = split_commas_spec(s.drop_first());
        seq![seq![s[0]] + rest[0]] + rest.drop_first()
    }
}

proof fn lemma_split_commas_nonempty(s: Seq<char>)
    ensures
        split_commas_spec(s).len() >= 1,
    decreases s.len(),
{
    if s.len() > 0 {
        lemma_split_commas_nonempty(s.drop_first());
    }
}

// The first piece runs to the first comma (at `j`), or to the end when no
// comma occurs; what follows the comma splits independently.
proof fn lemma_split_commas_at(s: Seq<char>, j: int)
    requires
        0 <= j <= s.len(),
        forall|k: int| 0 <= k < j ==> s[k] != ',',
        j < s.len() ==> s[j] == ',',
    ensures
        j == s.len() ==> split_commas_spec(s) =~= seq![s],
        j < s.len() ==> split_commas_spec(s) =~= seq![s.subrange(0, j)] + split_commas_spec(
            s.subrange(j + 1, s.len() as int),
        ),
    decreases j,
{
    if j == 0 {
        if s.len() > 0 {
            assert(s[0] == ',');
            assert(s.drop_first() =~= s.subrange(1, s.len() as int));
            assert(s.subrange(0, 0) =~= Seq::<char>::empty());
        } else {
            assert(s =~= Seq::<char>::empty());
        }
    } else {
        assert(s[0] != ',');
        let t = s.drop_first();
        assert(forall|k: int| 0 <= k < j - 1 ==> t[k] == s[k + 1] && t[k] != ',');
        lemma_split_commas_at(t, j - 1);
        lemma_split_commas_nonempty(t);
        if j == s.len() {
            assert(split_commas_spec(t) =~= seq![t]);
            assert(seq![s[0]] + t =~= s);
            assert(split_commas_spec(s) =~= seq![s]);
        } else {
            assert(t[j - 1] == ',');
            let tail = t.subrange(j, t.len() as int);
            assert(split_commas_spec(t) =~= seq![t.subrange(0, j - 1)] + split_commas_spec(tail));
            lemma_split_commas_nonempty(tail);
            assert(seq![s[0]] + t.subrange(0, j - 1) =~= s.subrange(0, j));
            assert(tail =~= s.subrange(j + 1, s.len() as int));
            assert(split_commas_spec(s) =~= seq![s.subrange(0, j)] + split_commas_spec(
                s.subrange(j + 1, s.len() as int),
            ));
        }
    }
}

/// The views of a list of strings.
pub open spec fn string_views(ps: Seq<String>) -> Seq<Seq<char>> {
    ps.map_values(|p: String| p@)
}

/// Splits `s` on commas, keeping empty pieces.
pub fn comma_string(s: &str) -> (r: Vec<String>)
    ensures
        string_views(r@) == split_commas_spec(s@),
{
    let n = s.unicode_len();
    let mut out: Vec<String> = Vec::new();
    let mut start: usize = 0;
    let mut i: usize = 0;
    proof {
        assert(s@.subrange(0, n as int) =~= s@);
        assert(string_views(out@) =~= Seq::<Seq<char>>::empty());
    }
    while i < n
        invariant
            n == s@.len(),
            0 <= start <= i <= n,
            forall|k: int| start <= k < i ==> s@[k] != ',',
            split_commas_spec(s@) =~= string_views(out@) + split_commas_spec(
                s@.subrange(start as int, n as int),
            ),
        decreases n - i,
    {
        if s.get_char(i) == ',' {
            let piece = s.substring_char(start, i).to_owned();
            proof {
                let suffix = s@.subrange(start as int, n as int);
                assert(forall|k: int|
                    0 <= k < i - start ==> suffix[k] == s@[k + start] && suffix[k] != ',');
                assert(suffix[i - start] == ',');
                lemma_split_commas_at(suffix, i - start);
                assert(suffix.subrange(0, i - start) =~= s@.subrange(start as int, i as int));
                assert(suffix.subrange(i - start + 1, suffix.len() as int) =~= s@.subrange(
                    i + 1,
                    n as int,
                ));
                assert(string_views(out@ + seq![piece]) =~= string_views(out@) + seq![piece@]);
            }
            out.push(piece);
            start = i + 1;
        }
        i = i + 1;
    }
    let piece = s.substring_char(start, n).to_owned();
    proof {
        let suffix = s@.subrange(start as int, n as int);
        assert(forall|k: int| 0 <= k < suffix.len() ==> suffix[k] == s@[k + start] && suffix[k]
            != ',');
        lemma_split_commas_at(suffix, suffix.len() as int);
        assert(suffix =~= s@.subrange(start as int, n as int));
        assert(string_views(out@ + seq![piece]) =~= string_views(out@) + seq![piece@]);
    }
    out.push(piece);
    proof {
        assert(string_views(out@) =~= split_commas_spec(s@));
    }
    out
}

/// Character-wise string equality.
pub fn str_eq(a: &str, b: &str) -> (r: bool)
    ensures
        r == (a@ == b@),
{
    let na = a.unicode_len();
    let nb = b.unicode_len();
    if na != nb {
        return false;
    }
    let mut i: usize = 0;
    while i < na
        invariant
            na == a@.len(),
            na == b@.len(),
            0 <= i <= na,
            forall|k: int| 0 <= k < i ==> a@[k] == b@[k],
        decreases na - i,
    {
        if a.get_char(i) != b.get_char(i) {
            return false;
        }
        i = i + 1;
    }
    proof {
        assert(a@ =~= b@);
    }
    true
}

} // verus!
