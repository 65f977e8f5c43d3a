//! Reading the raw answers of the system's scripting bridge.
//!
//! The bridge answers every query with text. These functions turn that text
//! into the values the rest of the library works with: whether Xcode runs,
//! the name of the file in its front window, and the name of its project.
use vstd::prelude::*;
use vstd::string::*;
use crate::text::{
    chars_of, last_occurrence, last_occurrence_exec, lemma_last_occurrence_found,
    lemma_last_occurrence_skips, occurs_at, occurs_at_exec, same_text,
};

verus! {

/// Whether a character has Unicode's White_Space property.
pub open spec fn is_white_space(c: char) -> bool {
    ||| '\u{9}' <= c <= '\u{D}'
    ||| c == ' '
    ||| c == '\u{85}'
    ||| c == '\u{A0}'
    ||| c == '\u{1680}'
    ||| '\u{2000}' <= c <= '\u{200A}'
    ||| c == '\u{2028}'
    ||| c == '\u{2029}'
    ||| c == '\u{202F}'
    ||| c == '\u{205F}'
    ||| c == '\u{3000}'
}

/// A text without its leading whitespace.
pub open spec fn trim_start_of(s: Seq<char>) -> Seq<char>
    decreases s.len(),
{
    if s.len() > 0 && is_white_space(s[0]) {
        trim_start_of(s.drop_first())
    } else {
        s
    }
}

/// A text without its trailing whitespace.
pub open spec fn trim_end_of(s: Seq<char>) -> Seq<char>
    decreases s.len(),
{
    if s.len() > 0 && is_white_space(s.last()) {
        trim_end_of(s.drop_last())
    } else {
        s
    }
}

/// A text without its leading and trailing whitespace.
pub open spec fn trim_of(s: Seq<char>) -> Seq<char> {
    trim_end_of(trim_start_of(s))
}

/// Relies on `str::trim`: the text without its leading and trailing
/// whitespace, whitespace being Unicode's White_Space property.
#[verifier::external_body]
fn trim(s: &str) -> (r: &str)
    ensures
        r@ == trim_of(s@),
{
    s.trim()
}

/// An answer of the bridge without the line end that closes it.
pub open spec fn line_of(answer: Seq<char>) -> Seq<char> {
    if answer.len() > 0 && answer.last() == '\n' {
        answer.drop_last()
    } else {
        answer
    }
}

/// The window title in the bridge's answer: the answer without its closing
/// line end, other whitespace kept.
pub fn window_title(answer: &str) -> (r: String)
    ensures
        r@ == line_of(answer@),
{
    let n = answer.unicode_len();
    if n > 0 && answer.get_char(n - 1) == '\n' {
        let line = answer.substring_char(0, n - 1);
        assert(line@ =~= answer@.drop_last());
        String::from_str(line)
    } else {
        String::from_str(answer)
    }
}

/// The separator between the context and the file name in a window title.
pub open spec fn title_separator() -> Seq<char> {
    seq![' ', '\u{2014}', ' ']
}

/// The file name that a window title shows: what follows the last separator,
/// or the whole title where there is none.
pub open spec fn file_of_title(t: Seq<char>) -> Seq<char> {
    match last_occurrence(t, title_separator()) {
        Some(i) => t.skip(i + title_separator().len()),
        None => t,
    }
}

/// The answer of the bridge when no document is open.
pub open spec fn missing_value() -> Seq<char> {
    "missing value"@
}

/// The label that the bridge puts before a workspace's name.
pub open spec fn workspace_label() -> Seq<char> {
    "workspace document "@
}

/// The project name in an already trimmed answer of the bridge.
pub open spec fn project_of(t: Seq<char>) -> Seq<char> {
    if t == missing_value() {
        Seq::empty()
    } else if occurs_at(t, workspace_label(), 0) {
        t.skip(workspace_label().len() as int)
    } else {
        t
    }
}

/// Whether the answer to "is Xcode running" says that it is.
pub fn check_xcode(answer: &str) -> (r: bool)
    ensures
        r == (trim_of(answer@) == "true"@),
{
    same_text(trim(answer), "true")
}

/// The file name in the title of Xcode's front window.
pub fn current_file(title: &str) -> (r: String)
    ensures
        r@ == file_of_title(title@),
{
    let t = chars_of(title);
    let n = t.len();
    let sep: Vec<char> = vec![' ', '\u{2014}', ' '];
    assert(sep@ == title_separator());
    assert(sep@.len() == 3);
    match last_occurrence_exec(&t, &sep) {
        Some(i) => {
            proof {
                lemma_last_occurrence_found(t@, sep@, t@.len());
                assert(occurs_at(t@, sep@, i as int));
            }
            let rest = title.substring_char(i + 3, n);
            assert(rest@ =~= title@.skip(i + 3));
            String::from_str(rest)
        },
        None => String::from_str(title),
    }
}

/// The name of Xcode's active project; empty where none is open.
pub fn current_project(answer: &str) -> (r: String)
    ensures
        r@ == project_of(trim_of(answer@)),
{
    let t = trim(answer);
    if same_text(t, "missing value") {
        return String::new();
    }
    let tc = chars_of(t);
    let label = "workspace document ";
    let lc = chars_of(label);
    if occurs_at_exec(&tc, &lc, 0) {
        let rest = t.substring_char(lc.len(), tc.len());
        assert(rest@ =~= t@.skip(lc@.len() as int));
        String::from_str(rest)
    } else {
        String::from_str(t)
    }
}

/// A title without the separator is its own file name.
pub proof fn lemma_plain_title(t: Seq<char>)
    requires
        forall|i: int| !occurs_at(t, title_separator(), i),
    ensures
        file_of_title(t) == t,
{
    lemma_last_occurrence_skips(t, title_separator(), 0, t.len());
}

/// A title made of a context, the separator and a file name that holds no
/// dash gives back that file name.
pub proof fn lemma_title_round_trip(context: Seq<char>, name: Seq<char>)
    requires
        !name.contains('\u{2014}'),
    ensures
        file_of_title(context + title_separator() + name) == name,
{
    let sep = title_separator();
    let t = context + sep + name;
    let k: int = context.len() as int;
    assert forall|q: int| k + 1 <= q < t.len() implies !occurs_at(t, sep, q) by {
        if occurs_at(t, sep, q) {
            assert(t.subrange(q, q + 3)[1] == sep[1]);
            assert(t[q + 1] == '\u{2014}');
            assert(name[q + 1 - k - 3] == t[q + 1]);
            assert(name.contains('\u{2014}'));
        }
    }
    assert(t.subrange(k, k + 3) =~= sep);
    assert(occurs_at(t, sep, k));
    lemma_last_occurrence_skips(t, sep, (k + 1) as nat, t.len());
    assert(t.skip(k + 3) =~= name);
}

} // verus!
