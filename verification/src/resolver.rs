//! Name resolver: canonicalizes file names and user fragments and picks the
//! first file whose canonical name starts with the canonical fragment.
//!
//! Canonicalization lowercases the name (full Unicode lowercasing, done by
//! the standard library), folds the lowercase extended-Latin vowels with
//! diacritics used by the sound library's locale to their unaccented ASCII
//! equivalents, and strips spaces.
use vstd::prelude::*;

verus! {

/// What `str::to_lowercase` returns for a given character sequence.  The full
/// Unicode lowercase mapping is far too large to write out, and it depends on
/// the characters alone, so it only gets a name here; the fold-and-strip step
/// that follows it is verified code with an exact contract.
pub uninterp spec fn lower_of(s: Seq<char>) -> Seq<char>;

/// Relies on str::to_lowercase: the lowercase equivalent of the string, per
/// the Unicode lowercase mapping; the result depends on the characters alone.
#[verifier::external_body]
fn lowercase(s: &str) -> (r: String)
    ensures
        r@ == lower_of(s@),
{
    s.to_lowercase()
}

/// Folds the lowercase accented vowels to their unaccented ASCII equivalents;
/// every other character is left unchanged.
pub open spec fn fold_char(c: char) -> char {
    match c {
        '\u{e1}' => 'a',
        '\u{e9}' => 'e',
        '\u{ed}' => 'i',
        '\u{f3}' => 'o',
        '\u{f6}' => 'o',
        '\u{151}' => 'o',
        '\u{fa}' => 'u',
        '\u{fc}' => 'u',
        '\u{171}' => 'u',
        _ => c,
    }
}

/// Each character folded, and the space characters dropped: the part of the
/// canonicalization that follows lowercasing.
pub open spec fn fold_strip(s: Seq<char>) -> Seq<char>
    decreases s.len(),
{
    if s.len() == 0 {
        Seq::empty()
    } else {
        let rest = fold_strip(s.drop_last());
        let c = fold_char(s.last());
        if c == ' ' {
            rest
        } else {
            rest.push(c)
        }
    }
}

/// The canonical form of a name: lowercased, folded, space-stripped.
pub open spec fn canon(s: Seq<char>) -> Seq<char> {
    fold_strip(lower_of(s))
}

/// Whether a file name matches a fragment: its canonical form starts with
/// the fragment's canonical form.
pub open spec fn matches_fragment(file_name: Seq<char>, fragment: Seq<char>) -> bool {
    canon(fragment).is_prefix_of(canon(file_name))
}

/// Fragments with the same canonical form match exactly the same file names,
/// so accent or case variants of a fragment all resolve to the same file.
pub proof fn lemma_equivalent_fragments_match_alike(
    file_name: Seq<char>,
    frag1: Seq<char>,
    frag2: Seq<char>,
)
    requires
        canon(frag1) == canon(frag2),
    ensures
        matches_fragment(file_name, frag1) == matches_fragment(file_name, frag2),
{
}

/// Folding a single character twice is the same as doing it once: the fold
/// maps every character to an unaccented one, which the fold leaves alone.
pub proof fn lemma_fold_char_idempotent(c: char)
    ensures
        fold_char(fold_char(c)) == fold_char(c),
{
}

/// The fold-and-strip step is idempotent: a folded, space-stripped name is
/// its own folded, space-stripped form.
pub proof fn lemma_fold_strip_idempotent(s: Seq<char>)
    ensures
        fold_strip(fold_strip(s)) == fold_strip(s),
    decreases s.len(),
{
    if s.len() == 0 {
    } else {
        lemma_fold_strip_idempotent(s.drop_last());
        let rest = fold_strip(s.drop_last());
        let c = fold_char(s.last());
        if c == ' ' {
        } else {
            assert(rest.push(c).drop_last() =~= rest);
            assert(rest.push(c).last() == c);
            lemma_fold_char_idempotent(s.last());
        }
    }
}

/// Exec mirror of `fold_char`.
fn fold_char_exec(c: char) -> (r: char)
    ensures
        r == fold_char(c),
{
    match c {
        '\u{e1}' => 'a',
        '\u{e9}' => 'e',
        '\u{ed}' => 'i',
        '\u{f3}' => 'o',
        '\u{f6}' => 'o',
        '\u{151}' => 'o',
        '\u{fa}' => 'u',
        '\u{fc}' => 'u',
        '\u{171}' => 'u',
        _ => c,
    }
}

/// Relies on String::push: appends the given character to the end of the
/// string.
#[verifier::external_body]
fn push_char(s: &mut String, c: char)
    ensures
        final(s)@ == old(s)@.push(c),
{
    s.push(c);
}

/// Folds the accented vowels of a string to unaccented ASCII and strips the
/// spaces: the verified half of canonicalization, after lowercasing.
pub fn fold_and_strip(s: &str) -> (r: String)
    ensures
        r@ == fold_strip(s@),
{
    let n = s.unicode_len();
    let mut out = String::new();
    let mut i: usize = 0;
    while i < n
        invariant
            i <= n,
            out@ == fold_strip(s@.take(i as int)),
        decreases n - i,
    {
        let c = s.get_char(i);
        let m = fold_char_exec(c);
        if m != ' ' {
            push_char(&mut out, m);
        }
        proof {
            assert(s@.take(i + 1 as int).drop_last() =~= s@.take(i as int));
            assert(s@.take(i + 1 as int).last() == s@[i as int]);
        }
        i = i + 1;
    }
    proof {
        assert(s@.take(n as int) =~= s@);
    }
    out
}

/// Canonicalizes a name: lowercase, fold the accented vowels to unaccented
/// ASCII, strip spaces.
pub fn soundboard_sanitize(s: &str) -> (r: String)
    ensures
        r@ == canon(s@),
{
    let lowered = lowercase(s);
    fold_and_strip(lowered.as_str())
}

/// Whether `prefix` is a character-for-character prefix of `s`.
pub fn str_starts_with(s: &str, prefix: &str) -> (r: bool)
    ensures
        r == prefix@.is_prefix_of(s@),
{
    let n = s.unicode_len();
    let np = prefix.unicode_len();
    if np > n {
        return false;
    }
    let mut i: usize = 0;
    while i < np
        invariant
            i <= np,
            np <= n,
            forall|j: int| 0 <= j < i ==> prefix@[j] == s@[j],
        decreases np - i,
    {
        if s.get_char(i) != prefix.get_char(i) {
            proof {
                assert(s@.subrange(0, np as int)[i as int] == s@[i as int]);
            }
            return false;
        }
        i = i + 1;
    }
    proof {
        assert(prefix@ =~= s@.subrange(0, np as int));
    }
    true
}

/// Whether the file name matches the fragment: the canonical file name starts
/// with the canonical fragment.
pub fn soundboard_compare(file_name: &str, name_chunk: &str) -> (r: bool)
    ensures
        r == matches_fragment(file_name@, name_chunk@),
{
    let f = soundboard_sanitize(file_name);
    let c = soundboard_sanitize(name_chunk);
    str_starts_with(f.as_str(), c.as_str())
}

/// Resolves a fragment against a directory listing: returns the index of the
/// first file name whose canonical form starts with the canonical fragment,
/// or `None` when no file name matches.
pub fn resolve(fragment: &str, files: &Vec<String>) -> (r: Option<usize>)
    ensures
        match r {
            Some(i) => i < files@.len() && matches_fragment(files@[i as int]@, fragment@)
                && forall|j: int| 0 <= j < i ==> !matches_fragment(files@[j]@, fragment@),
            None => forall|j: int|
                0 <= j < files@.len() ==> !matches_fragment(files@[j]@, fragment@),
        },
{
    let mut i: usize = 0;
    while i < files.len()
        invariant
            i <= files@.len(),
            forall|j: int| 0 <= j < i ==> !matches_fragment(files@[j]@, fragment@),
        decreases files@.len() - i,
    {
        if soundboard_compare(files[i].as_str(), fragment) {
            return Some(i);
        }
        i = i + 1;
    }
    None
}

} // verus!
