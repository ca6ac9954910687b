//! Character- and sequence-level helpers shared by the name normalizer and
//! the description sanitizer.

use vstd::prelude::*;

verus! {

broadcast use vstd::seq::group_seq_axioms;

/// Relies on `String::push` of std: appends the given character to the end
/// of the string.
pub assume_specification[ std::string::String::push ](s: &mut String, c: char)
    ensures
        final(s)@ == old(s)@.push(c),
;

/// The ASCII upper-case form of a character; letters outside `a..z` pass
/// through unchanged.
pub open spec fn spec_to_upper(c: char) -> char {
    if 'a' <= c && c <= 'z' {
        (((c as u32) - 32) as u8) as char
    } else {
        c
    }
}

/// The ASCII lower-case form of a character.
pub open spec fn spec_to_lower(c: char) -> char {
    if 'A' <= c && c <= 'Z' {
        (((c as u32) + 32) as u8) as char
    } else {
        c
    }
}

pub fn to_upper(c: char) -> (r: char)
    ensures
        r == spec_to_upper(c),
{
    if 'a' <= c && c <= 'z' {
        (((c as u32) - 32) as u8) as char
    } else {
        c
    }
}

pub fn to_lower(c: char) -> (r: char)
    ensures
        r == spec_to_lower(c),
{
    if 'A' <= c && c <= 'Z' {
        (((c as u32) + 32) as u8) as char
    } else {
        c
    }
}

/// The whitespace set of the normalizer: ASCII blanks.
pub open spec fn spec_is_ws(c: char) -> bool {
    c == ' ' || c == '\t' || c == '\n' || c == '\r' || c == '\u{b}' || c == '\u{c}'
}

pub fn is_ws(c: char) -> (r: bool)
    ensures
        r == spec_is_ws(c),
{
    c == ' ' || c == '\t' || c == '\n' || c == '\r' || c == '\u{b}' || c == '\u{c}'
}

/// PascalCase walk: an underscore arms the capitalization flag and is
/// dropped; any other character is appended, upper-cased when the flag is
/// armed.
pub open spec fn spec_pascal_rec(s: Seq<char>, cap: bool) -> Seq<char>
    decreases s.len(),
{
    if s.len() == 0 {
        Seq::empty()
    } else if s[0] == '_' {
        spec_pascal_rec(s.skip(1), true)
    } else if cap {
        seq![spec_to_upper(s[0])] + spec_pascal_rec(s.skip(1), false)
    } else {
        seq![s[0]] + spec_pascal_rec(s.skip(1), false)
    }
}

/// The PascalCase form of a source name.
pub open spec fn spec_pascal(s: Seq<char>) -> Seq<char> {
    spec_pascal_rec(s, true)
}

/// Everything before the first " for " clause; the whole input when none
/// occurs.
pub open spec fn spec_head_before_for(s: Seq<char>) -> Seq<char>
    decreases s.len(),
{
    if s.len() == 0 {
        Seq::empty()
    } else if spec_for_at_start(s) {
        Seq::empty()
    } else {
        seq![s[0]] + spec_head_before_for(s.skip(1))
    }
}

pub open spec fn spec_for_at_start(s: Seq<char>) -> bool {
    s.len() >= 5 && s[0] == ' ' && s[1] == 'f' && s[2] == 'o' && s[3] == 'r' && s[4] == ' '
}

/// Length of the article ("a ", "an ", "the ") standing at the front, or 0.
pub open spec fn spec_article_len(s: Seq<char>) -> int {
    if s.len() >= 2 && s[0] == 'a' && s[1] == ' ' {
        2
    } else if s.len() >= 3 && s[0] == 'a' && s[1] == 'n' && s[2] == ' ' {
        3
    } else if s.len() >= 4 && s[0] == 't' && s[1] == 'h' && s[2] == 'e' && s[3] == ' ' {
        4
    } else {
        0
    }
}

/// Deletes every article occurrence, scanning left to right.
pub open spec fn spec_strip_articles(s: Seq<char>) -> Seq<char>
    decreases s.len(),
{
    if s.len() == 0 {
        Seq::empty()
    } else if spec_article_len(s) > 0 {
        spec_strip_articles(s.skip(spec_article_len(s)))
    } else {
        seq![s[0]] + spec_strip_articles(s.skip(1))
    }
}

/// Drops leading whitespace.
pub open spec fn spec_trim_start(s: Seq<char>) -> Seq<char>
    decreases s.len(),
{
    if s.len() > 0 && spec_is_ws(s[0]) {
        spec_trim_start(s.skip(1))
    } else {
        s
    }
}

/// Drops trailing whitespace.
pub open spec fn spec_trim_end(s: Seq<char>) -> Seq<char>
    decreases s.len(),
{
    if s.len() > 0 && spec_is_ws(s[s.len() - 1]) {
        spec_trim_end(s.take(s.len() - 1))
    } else {
        s
    }
}

/// Drops whitespace at both ends.
pub open spec fn spec_trim(s: Seq<char>) -> Seq<char> {
    spec_trim_end(spec_trim_start(s))
}

/// Collapses every whitespace run into a single underscore; `in_ws` tells
/// whether the walk stands inside a run already.
pub open spec fn spec_collapse_rec(s: Seq<char>, in_ws: bool) -> Seq<char>
    decreases s.len(),
{
    if s.len() == 0 {
        Seq::empty()
    } else if spec_is_ws(s[0]) {
        if in_ws {
            spec_collapse_rec(s.skip(1), true)
        } else {
            seq!['_'] + spec_collapse_rec(s.skip(1), true)
        }
    } else {
        seq![s[0]] + spec_collapse_rec(s.skip(1), false)
    }
}

pub open spec fn spec_collapse_ws(s: Seq<char>) -> Seq<char> {
    spec_collapse_rec(s, false)
}

/// The ASCII lower-case form of a sequence.
pub open spec fn spec_lower_seq(s: Seq<char>) -> Seq<char> {
    s.map_values(|c: char| spec_to_lower(c))
}

/// The canonical identifier of a free-form title: the head before any
/// " for " clause, articles deleted, trimmed, whitespace runs collapsed to
/// underscores, lower-cased.
pub open spec fn spec_identifier_of(s: Seq<char>) -> Seq<char> {
    spec_lower_seq(spec_collapse_ws(spec_trim(spec_strip_articles(spec_head_before_for(s)))))
}

/// Length of the HTML tag standing at the front (`<`, an optional `/`, one
/// or more lower-case letters, `>`), or `None`.
pub open spec fn spec_tag_len(s: Seq<char>) -> Option<int> {
    if s.len() >= 1 && s[0] == '<' {
        let start: int = if s.len() >= 2 && s[1] == '/' {
            2
        } else {
            1
        };
        let run = spec_letter_run(s, start);
        if run > 0 && start + run < s.len() && s[start + run] == '>' {
            Some(start + run + 1)
        } else {
            None
        }
    } else {
        None
    }
}

/// Count of consecutive lower-case letters from position `i`.
pub open spec fn spec_letter_run(s: Seq<char>, i: int) -> nat
    decreases s.len() - i,
{
    if 0 <= i < s.len() && 'a' <= s[i] && s[i] <= 'z' {
        1 + spec_letter_run(s, i + 1)
    } else {
        0
    }
}

/// Deletes every HTML tag, scanning left to right.
pub open spec fn spec_strip_tags(s: Seq<char>) -> Seq<char>
    decreases s.len(),
{
    if s.len() == 0 {
        Seq::empty()
    } else if spec_tag_len(s) is Some {
        spec_strip_tags(s.skip(spec_tag_len(s)->0))
    } else {
        seq![s[0]] + spec_strip_tags(s.skip(1))
    }
}

/// A sanitized description: tags deleted, then trimmed.
pub open spec fn spec_description_of(s: Seq<char>) -> Seq<char> {
    spec_trim(spec_strip_tags(s))
}

pub open spec fn seq_has_no_ws(s: Seq<char>) -> bool {
    forall|i: int| 0 <= i < s.len() ==> !spec_is_ws(#[trigger] s[i])
}

pub open spec fn seq_has_no_underscore(s: Seq<char>) -> bool {
    forall|i: int| 0 <= i < s.len() ==> #[trigger] s[i] != '_'
}

proof fn lemma_collapse_no_ws(s: Seq<char>, b: bool)
    ensures
        seq_has_no_ws(spec_collapse_rec(s, b)),
    decreases s.len(),
{
    if s.len() == 0 {
    } else if spec_is_ws(s[0]) {
        lemma_collapse_no_ws(s.skip(1), true);
        assert(!spec_is_ws('_'));
    } else {
        lemma_collapse_no_ws(s.skip(1), false);
    }
}

proof fn lemma_lower_no_ws(s: Seq<char>)
    requires
        seq_has_no_ws(s),
    ensures
        seq_has_no_ws(spec_lower_seq(s)),
{
    assert forall|i: int| 0 <= i < spec_lower_seq(s).len() implies !spec_is_ws(
        #[trigger] spec_lower_seq(s)[i],
    ) by {
        assert(!spec_is_ws(s[i]));
    }
}

proof fn lemma_head_before_for_id(s: Seq<char>)
    requires
        seq_has_no_ws(s),
    ensures
        spec_head_before_for(s) == s,
    decreases s.len(),
{
    if s.len() == 0 {
        assert(spec_head_before_for(s) =~= s);
    } else {
        assert(!spec_is_ws(s[0]));
        assert(!spec_for_at_start(s));
        lemma_head_before_for_id(s.skip(1));
        assert(seq![s[0]] + s.skip(1) =~= s);
    }
}

proof fn lemma_strip_articles_id(s: Seq<char>)
    requires
        seq_has_no_ws(s),
    ensures
        spec_strip_articles(s) == s,
    decreases s.len(),
{
    if s.len() == 0 {
        assert(spec_strip_articles(s) =~= s);
    } else {
        assert(spec_article_len(s) == 0);
        lemma_strip_articles_id(s.skip(1));
        assert(seq![s[0]] + s.skip(1) =~= s);
    }
}

proof fn lemma_trim_id(s: Seq<char>)
    requires
        seq_has_no_ws(s),
    ensures
        spec_trim(s) == s,
{
    if s.len() > 0 {
        assert(!spec_is_ws(s[0]));
        assert(!spec_is_ws(s[s.len() - 1]));
    }
}

proof fn lemma_collapse_id(s: Seq<char>)
    requires
        seq_has_no_ws(s),
    ensures
        spec_collapse_rec(s, false) == s,
    decreases s.len(),
{
    if s.len() == 0 {
        assert(spec_collapse_rec(s, false) =~= s);
    } else {
        assert(!spec_is_ws(s[0]));
        lemma_collapse_id(s.skip(1));
        assert(seq![s[0]] + s.skip(1) =~= s);
    }
}

proof fn lemma_lower_idempotent_char(c: char)
    ensures
        spec_to_lower(spec_to_lower(c)) == spec_to_lower(c),
{
}

proof fn lemma_lower_idempotent(s: Seq<char>)
    ensures
        spec_lower_seq(spec_lower_seq(s)) == spec_lower_seq(s),
{
    assert forall|i: int| 0 <= i < s.len() implies spec_lower_seq(spec_lower_seq(s))[i]
        == spec_lower_seq(s)[i] by {
        lemma_lower_idempotent_char(s[i]);
    }
    assert(spec_lower_seq(spec_lower_seq(s)) =~= spec_lower_seq(s));
}

/// The identifier normalizer is idempotent: its output carries no
/// whitespace, so a second pass strips nothing, collapses nothing, and
/// lower-cases characters that are already lower-case.
pub proof fn lemma_identifier_idempotent(s: Seq<char>)
    ensures
        spec_identifier_of(spec_identifier_of(s)) == spec_identifier_of(s),
{
    let collapsed = spec_collapse_ws(spec_trim(spec_strip_articles(spec_head_before_for(s))));
    let y = spec_identifier_of(s);
    lemma_collapse_no_ws(spec_trim(spec_strip_articles(spec_head_before_for(s))), false);
    lemma_lower_no_ws(collapsed);
    assert(seq_has_no_ws(y));
    lemma_head_before_for_id(y);
    lemma_strip_articles_id(y);
    lemma_trim_id(y);
    lemma_collapse_id(y);
    lemma_lower_idempotent(collapsed);
}

proof fn lemma_pascal_no_underscore(s: Seq<char>, cap: bool)
    ensures
        seq_has_no_underscore(spec_pascal_rec(s, cap)),
    decreases s.len(),
{
    if s.len() == 0 {
    } else if s[0] == '_' {
        lemma_pascal_no_underscore(s.skip(1), true);
    } else {
        lemma_pascal_no_underscore(s.skip(1), false);
        assert(spec_to_upper(s[0]) != '_');
        assert(s[0] != '_');
    }
}

proof fn lemma_pascal_id_no_cap(s: Seq<char>)
    requires
        seq_has_no_underscore(s),
    ensures
        spec_pascal_rec(s, false) == s,
    decreases s.len(),
{
    if s.len() == 0 {
        assert(spec_pascal_rec(s, false) =~= s);
    } else {
        assert(s[0] != '_');
        lemma_pascal_id_no_cap(s.skip(1));
        assert(seq![s[0]] + s.skip(1) =~= s);
    }
}

proof fn lemma_pascal_first_not_lower(s: Seq<char>)
    ensures
        spec_pascal(s).len() > 0 ==> !('a' <= spec_pascal(s)[0] && spec_pascal(s)[0] <= 'z'),
    decreases s.len(),
{
    if s.len() == 0 {
    } else if s[0] == '_' {
        lemma_pascal_first_not_lower(s.skip(1));
    } else {
        assert(spec_pascal(s)[0] == spec_to_upper(s[0]));
    }
}

/// PascalCase is idempotent: its output carries no underscore and starts
/// upper-cased, so a second walk copies it unchanged.
pub proof fn lemma_pascal_idempotent(s: Seq<char>)
    ensures
        spec_pascal(spec_pascal(s)) == spec_pascal(s),
{
    let y = spec_pascal(s);
    lemma_pascal_no_underscore(s, true);
    if y.len() == 0 {
        assert(spec_pascal(y) =~= y);
    } else {
        lemma_pascal_first_not_lower(s);
        assert(y[0] != '_');
        assert(spec_to_upper(y[0]) == y[0]);
        lemma_pascal_no_underscore(s, true);
        assert(seq_has_no_underscore(y.skip(1)));
        lemma_pascal_id_no_cap(y.skip(1));
        assert(spec_pascal(y) == seq![spec_to_upper(y[0])] + spec_pascal_rec(y.skip(1), false));
        assert(seq![y[0]] + y.skip(1) =~= y);
    }
}

/// The PascalCase walk drops every underscore.
pub proof fn lemma_pascal_no_underscores(s: Seq<char>)
    ensures
        seq_has_no_underscore(spec_pascal(s)),
{
    lemma_pascal_no_underscore(s, true);
}

/// On input without underscores, the PascalCase walk only upper-cases the
/// first character.
pub proof fn lemma_pascal_of_clean(s: Seq<char>)
    requires
        seq_has_no_underscore(s),
        s.len() > 0,
    ensures
        spec_pascal(s) == seq![spec_to_upper(s[0])] + s.skip(1),
{
    assert(s[0] != '_');
    assert(seq_has_no_underscore(s.skip(1)));
    lemma_pascal_id_no_cap(s.skip(1));
}

pub fn pascal_of(s: &str) -> (r: String)
    ensures
        r@ == spec_pascal(s@),
{
    let n = s.unicode_len();
    let mut out = String::new();
    let mut cap = true;
    let mut i: usize = 0;
    proof {
        assert(s@.skip(0) =~= s@);
        assert(Seq::<char>::empty() + spec_pascal(s@) =~= spec_pascal(s@));
    }
    while i < n
        invariant
            n == s@.len(),
            i <= n,
            out@ + spec_pascal_rec(s@.skip(i as int), cap) == spec_pascal(s@),
        decreases n - i,
    {
        let c = s.get_char(i);
        proof {
            assert(s@.skip(i as int)[0] == c);
            assert(s@.skip(i as int).skip(1) =~= s@.skip(i as int + 1));
        }
        if c == '_' {
            cap = true;
        } else if cap {
            out.push(to_upper(c));
            cap = false;
        } else {
            out.push(c);
        }
        i = i + 1;
    }
    proof {
        assert(s@.skip(n as int) =~= Seq::<char>::empty());
        assert(out@ + Seq::<char>::empty() =~= out@);
    }
    out
}

pub fn head_before_for(s: &str) -> (r: String)
    ensures
        r@ == spec_head_before_for(s@),
{
    let n = s.unicode_len();
    let mut out = String::new();
    let mut i: usize = 0;
    proof {
        assert(s@.skip(0) =~= s@);
        assert(Seq::<char>::empty() + spec_head_before_for(s@) =~= spec_head_before_for(s@));
    }
    while i < n
        invariant
            n == s@.len(),
            i <= n,
            out@ + spec_head_before_for(s@.skip(i as int)) == spec_head_before_for(s@),
        decreases n - i,
    {
        let at_for = n - i >= 5 && s.get_char(i) == ' ' && s.get_char(i + 1) == 'f' && s.get_char(
            i + 2,
        ) == 'o' && s.get_char(i + 3) == 'r' && s.get_char(i + 4) == ' ';
        proof {
            assert(forall|k: int|
                0 <= k < s@.skip(i as int).len() ==> s@.skip(i as int)[k] == s@[i + k]);
            assert(at_for == spec_for_at_start(s@.skip(i as int)));
        }
        if at_for {
            return out;
        }
        let c = s.get_char(i);
        proof {
            assert(s@.skip(i as int).skip(1) =~= s@.skip(i as int + 1));
        }
        out.push(c);
        i = i + 1;
    }
    proof {
        assert(s@.skip(n as int) =~= Seq::<char>::empty());
        assert(out@ + Seq::<char>::empty() =~= out@);
    }
    out
}

/// The article length standing at position `i`, as `spec_article_len` sees
/// the suffix from `i`.
fn article_len_at(s: &str, i: usize) -> (r: usize)
    requires
        i <= s@.len(),
    ensures
        r as int == spec_article_len(s@.skip(i as int)),
        i + r <= s@.len(),
{
    let n = s.unicode_len();
    proof {
        assert(forall|k: int|
            0 <= k < s@.skip(i as int).len() ==> s@.skip(i as int)[k] == s@[i + k]);
    }
    if n - i >= 2 && s.get_char(i) == 'a' && s.get_char(i + 1) == ' ' {
        2
    } else if n - i >= 3 && s.get_char(i) == 'a' && s.get_char(i + 1) == 'n' && s.get_char(i + 2)
        == ' ' {
        3
    } else if n - i >= 4 && s.get_char(i) == 't' && s.get_char(i + 1) == 'h' && s.get_char(i + 2)
        == 'e' && s.get_char(i + 3) == ' ' {
        4
    } else {
        0
    }
}

pub fn strip_articles(s: &str) -> (r: String)
    ensures
        r@ == spec_strip_articles(s@),
{
    let n = s.unicode_len();
    let mut out = String::new();
    let mut i: usize = 0;
    proof {
        assert(s@.skip(0) =~= s@);
        assert(Seq::<char>::empty() + spec_strip_articles(s@) =~= spec_strip_articles(s@));
    }
    while i < n
        invariant
            n == s@.len(),
            i <= n,
            out@ + spec_strip_articles(s@.skip(i as int)) == spec_strip_articles(s@),
        decreases n - i,
    {
        let alen = article_len_at(s, i);
        if alen > 0 {
            proof {
                assert(s@.skip(i as int).skip(alen as int) =~= s@.skip(i as int + alen as int));
            }
            i = i + alen;
        } else {
            let c = s.get_char(i);
            proof {
                assert(s@.skip(i as int)[0] == c);
                assert(s@.skip(i as int).skip(1) =~= s@.skip(i as int + 1));
            }
            out.push(c);
            i = i + 1;
        }
    }
    proof {
        assert(s@.skip(n as int) =~= Seq::<char>::empty());
        assert(out@ + Seq::<char>::empty() =~= out@);
    }
    out
}

proof fn lemma_trim_start_skip(s: Seq<char>, a: int)
    requires
        0 <= a <= s.len(),
        forall|j: int| 0 <= j < a ==> spec_is_ws(s[j]),
        a == s.len() || !spec_is_ws(s[a]),
    ensures
        spec_trim_start(s) == s.skip(a),
    decreases a,
{
    if a == 0 {
        assert(s.skip(0) =~= s);
    } else {
        assert(spec_is_ws(s[0]));
        lemma_trim_start_skip(s.skip(1), a - 1);
        assert(s.skip(1).skip(a - 1) =~= s.skip(a));
    }
}

proof fn lemma_trim_end_take(s: Seq<char>, b: int)
    requires
        0 <= b <= s.len(),
        forall|j: int| b <= j < s.len() ==> spec_is_ws(s[j]),
        b == 0 || !spec_is_ws(s[b - 1]),
    ensures
        spec_trim_end(s) == s.take(b),
    decreases s.len(),
{
    if b == s.len() {
        assert(s.take(b) =~= s);
    } else {
        assert(spec_is_ws(s[s.len() - 1]));
        lemma_trim_end_take(s.take(s.len() - 1), b);
        assert(s.take(s.len() - 1).take(b) =~= s.take(b));
    }
}

pub fn trim(s: &str) -> (r: String)
    ensures
        r@ == spec_trim(s@),
{
    let n = s.unicode_len();
    let mut a: usize = 0;
    while a < n && is_ws(s.get_char(a))
        invariant
            n == s@.len(),
            a <= n,
            forall|j: int| 0 <= j < a ==> spec_is_ws(s@[j]),
        decreases n - a,
    {
        a = a + 1;
    }
    if a == n {
        proof {
            lemma_trim_start_skip(s@, n as int);
            assert(s@.skip(n as int) =~= Seq::<char>::empty());
            lemma_trim_end_take(Seq::<char>::empty(), 0);
            assert(Seq::<char>::empty().take(0) =~= Seq::<char>::empty());
        }
        return String::new();
    }
    let mut b: usize = n;
    while b > a && is_ws(s.get_char(b - 1))
        invariant
            n == s@.len(),
            a <= b <= n,
            forall|j: int| b <= j < n ==> spec_is_ws(s@[j]),
        decreases b,
    {
        b = b - 1;
    }
    proof {
        lemma_trim_start_skip(s@, a as int);
        assert(!spec_is_ws(s@[b - 1]));
        assert(forall|j: int|
            b - a <= j < s@.skip(a as int).len() ==> spec_is_ws(#[trigger] s@.skip(a as int)[j]));
        lemma_trim_end_take(s@.skip(a as int), b - a);
        assert(s@.skip(a as int).take(b - a) =~= s@.subrange(a as int, b as int));
    }
    let part = s.substring_char(a, b);
    part.to_owned()
}

pub fn collapse_ws(s: &str) -> (r: String)
    ensures
        r@ == spec_collapse_ws(s@),
{
    let n = s.unicode_len();
    let mut out = String::new();
    let mut in_ws = false;
    let mut i: usize = 0;
    proof {
        assert(s@.skip(0) =~= s@);
        assert(Seq::<char>::empty() + spec_collapse_ws(s@) =~= spec_collapse_ws(s@));
    }
    while i < n
        invariant
            n == s@.len(),
            i <= n,
            out@ + spec_collapse_rec(s@.skip(i as int), in_ws) == spec_collapse_ws(s@),
        decreases n - i,
    {
        let c = s.get_char(i);
        proof {
            assert(s@.skip(i as int)[0] == c);
            assert(s@.skip(i as int).skip(1) =~= s@.skip(i as int + 1));
        }
        if is_ws(c) {
            if !in_ws {
                out.push('_');
                in_ws = true;
            }
        } else {
            out.push(c);
            in_ws = false;
        }
        i = i + 1;
    }
    proof {
        assert(s@.skip(n as int) =~= Seq::<char>::empty());
        assert(out@ + Seq::<char>::empty() =~= out@);
    }
    out
}

pub fn lower_of(s: &str) -> (r: String)
    ensures
        r@ == spec_lower_seq(s@),
{
    let n = s.unicode_len();
    let mut out = String::new();
    let mut i: usize = 0;
    proof {
        assert(s@.take(0) =~= Seq::<char>::empty());
        assert(spec_lower_seq(Seq::<char>::empty()) =~= Seq::<char>::empty());
    }
    while i < n
        invariant
            n == s@.len(),
            i <= n,
            out@ == spec_lower_seq(s@.take(i as int)),
        decreases n - i,
    {
        let c = s.get_char(i);
        out.push(to_lower(c));
        proof {
            assert(s@.take(i as int + 1) =~= s@.take(i as int).push(c));
            assert(spec_lower_seq(s@.take(i as int + 1)) =~= spec_lower_seq(
                s@.take(i as int),
            ).push(spec_to_lower(c)));
        }
        i = i + 1;
    }
    proof {
        assert(s@.take(n as int) =~= s@);
    }
    out
}

/// Count of consecutive lower-case letters from position `i`.
fn letter_run_at(s: &str, i: usize) -> (r: usize)
    requires
        i <= s@.len(),
    ensures
        r as nat == spec_letter_run(s@, i as int),
        i + r <= s@.len(),
    decreases s@.len() - i,
{
    let n = s.unicode_len();
    if i < n {
        let c = s.get_char(i);
        if 'a' <= c && c <= 'z' {
            let rest = letter_run_at(s, i + 1);
            return 1 + rest;
        }
    }
    0
}

proof fn lemma_letter_run_skip(s: Seq<char>, i: int, p: int)
    requires
        0 <= i,
        0 <= p,
        i + p <= s.len(),
    ensures
        spec_letter_run(s.skip(i), p) == spec_letter_run(s, i + p),
    decreases s.len() - i - p,
{
    assert(forall|k: int| 0 <= k < s.skip(i).len() ==> s.skip(i)[k] == s[i + k]);
    if p < s.skip(i).len() && 'a' <= s.skip(i)[p] && s.skip(i)[p] <= 'z' {
        lemma_letter_run_skip(s, i, p + 1);
    }
}

/// The tag length standing at position `i`, as `spec_tag_len` sees the
/// suffix from `i`; 0 when no tag stands there.
fn tag_len_at(s: &str, i: usize) -> (r: usize)
    requires
        i <= s@.len(),
    ensures
        spec_tag_len(s@.skip(i as int)) is Some ==> r as int == spec_tag_len(
            s@.skip(i as int),
        )->0,
        spec_tag_len(s@.skip(i as int)) is None ==> r == 0,
        i + r <= s@.len(),
        spec_tag_len(s@.skip(i as int)) is Some ==> r >= 2,
    decreases s@.len() - i,
{
    let n = s.unicode_len();
    proof {
        assert(forall|k: int|
            0 <= k < s@.skip(i as int).len() ==> s@.skip(i as int)[k] == s@[i + k]);
    }
    if i < n && s.get_char(i) == '<' {
        let start: usize = if i + 1 < n && s.get_char(i + 1) == '/' {
            2
        } else {
            1
        };
        let run = letter_run_at(s, i + start);
        proof {
            lemma_letter_run_skip(s@, i as int, start as int);
        }
        if run > 0 && i + start + run < n && s.get_char(i + start + run) == '>' {
            start + run + 1
        } else {
            0
        }
    } else {
        0
    }
}

pub fn strip_tags(s: &str) -> (r: String)
    ensures
        r@ == spec_strip_tags(s@),
{
    let n = s.unicode_len();
    let mut out = String::new();
    let mut i: usize = 0;
    proof {
        assert(s@.skip(0) =~= s@);
        assert(Seq::<char>::empty() + spec_strip_tags(s@) =~= spec_strip_tags(s@));
    }
    while i < n
        invariant
            n == s@.len(),
            i <= n,
            out@ + spec_strip_tags(s@.skip(i as int)) == spec_strip_tags(s@),
        decreases n - i,
    {
        let tlen = tag_len_at(s, i);
        if tlen > 0 {
            proof {
                assert(s@.skip(i as int).skip(tlen as int) =~= s@.skip(i as int + tlen as int));
            }
            i = i + tlen;
        } else {
            let c = s.get_char(i);
            proof {
                assert(s@.skip(i as int)[0] == c);
                assert(s@.skip(i as int).skip(1) =~= s@.skip(i as int + 1));
            }
            out.push(c);
            i = i + 1;
        }
    }
    proof {
        assert(s@.skip(n as int) =~= Seq::<char>::empty());
        assert(out@ + Seq::<char>::empty() =~= out@);
    }
    out
}

} // verus!
