//! Editing of the ignore file: adding and removing one exclusion entry.
//!
//! The functions here take the file's current text and return the text to
//! write, or `None` when the file is to be left as it is.
use crate::text::{
    lemma_lines_append, lemma_lines_last, lemma_lines_split, lemma_unlines_lines, lines,
    same_text, split_lines, trim, trimmed, unlines, views,
};
use crate::protocol::{Event, EventView};
use vstd::prelude::*;

verus! {

/// A line of the ignore file is the entry when it reads as the pattern once
/// whitespace at its ends is ignored.
pub open spec fn is_entry(line: Seq<char>, pattern: Seq<char>) -> bool {
    trimmed(line) == pattern
}

/// Whether some line of `content` is the entry.
pub open spec fn has_entry(content: Seq<char>, pattern: Seq<char>) -> bool {
    exists|k: int| 0 <= k < lines(content).len() && is_entry(#[trigger] lines(content)[k], pattern)
}

/// The lines that are not the entry, in order.
pub open spec fn kept_lines(ls: Seq<Seq<char>>, pattern: Seq<char>) -> Seq<Seq<char>>
    decreases ls.len(),
{
    if ls.len() == 0 {
        seq![]
    } else {
        (if is_entry(ls[0], pattern) {
            Seq::<Seq<char>>::empty()
        } else {
            seq![ls[0]]
        }) + kept_lines(ls.drop_first(), pattern)
    }
}

/// `content` as it stands when the entry is to follow: unchanged when empty
/// or ending in a line feed, else with a line feed added.
pub open spec fn line_ended(content: Seq<char>) -> Seq<char> {
    if content.len() == 0 || content.last() == '\n' {
        content
    } else {
        content + seq!['\n']
    }
}

/// The ignore file after the entry was ensured.
pub open spec fn with_entry(content: Seq<char>, pattern: Seq<char>) -> Seq<char> {
    if has_entry(content, pattern) {
        content
    } else {
        line_ended(content) + pattern + seq!['\n']
    }
}

/// The ignore file after the entry was removed.
pub open spec fn without_entry(content: Seq<char>, pattern: Seq<char>) -> Seq<char> {
    if has_entry(content, pattern) {
        unlines(kept_lines(lines(content), pattern))
    } else {
        content
    }
}

/// A pattern that can stand as a line of its own: no line feed in it and no
/// whitespace at its ends.
pub open spec fn is_line_pattern(pattern: Seq<char>) -> bool {
    &&& forall|i: int| 0 <= i < pattern.len() ==> pattern[i] != '\n'
    &&& trimmed(pattern) == pattern
}

proof fn lemma_kept_append(a: Seq<Seq<char>>, b: Seq<Seq<char>>, p: Seq<char>)
    ensures
        kept_lines(a + b, p) == kept_lines(a, p) + kept_lines(b, p),
    decreases a.len(),
{
    if a.len() == 0 {
        assert(a + b =~= b);
        assert(kept_lines(a, p) + kept_lines(b, p) =~= kept_lines(b, p));
    } else {
        assert((a + b).drop_first() =~= a.drop_first() + b);
        lemma_kept_append(a.drop_first(), b, p);
        assert(kept_lines(a + b, p) =~= kept_lines(a, p) + kept_lines(b, p));
    }
}

proof fn lemma_kept_all(ls: Seq<Seq<char>>, p: Seq<char>)
    requires
        forall|k: int| 0 <= k < ls.len() ==> !is_entry(#[trigger] ls[k], p),
    ensures
        kept_lines(ls, p) == ls,
    decreases ls.len(),
{
    if ls.len() > 0 {
        assert(!is_entry(ls[0], p));
        assert forall|k: int| 0 <= k < ls.drop_first().len() implies !is_entry(
            #[trigger] ls.drop_first()[k],
            p,
        ) by {
            assert(ls.drop_first()[k] == ls[k + 1]);
        }
        lemma_kept_all(ls.drop_first(), p);
        assert(kept_lines(ls, p) =~= ls);
    }
}

proof fn lemma_kept_one(x: Seq<char>, p: Seq<char>)
    ensures
        kept_lines(seq![x], p) == (if is_entry(x, p) {
            Seq::<Seq<char>>::empty()
        } else {
            seq![x]
        }),
        unlines(seq![x]) == x + seq!['\n'],
{
    let one = seq![x];
    assert(one.drop_first() =~= Seq::<Seq<char>>::empty());
    assert(kept_lines(one.drop_first(), p) =~= Seq::<Seq<char>>::empty());
    assert(unlines(one.drop_first()) =~= Seq::<char>::empty());
    assert(kept_lines(one, p) =~= (if is_entry(x, p) {
        Seq::<Seq<char>>::empty()
    } else {
        seq![x]
    }));
    assert(unlines(one) =~= x + seq!['\n']);
}

proof fn lemma_unlines_append(a: Seq<Seq<char>>, b: Seq<Seq<char>>)
    ensures
        unlines(a + b) == unlines(a) + unlines(b),
    decreases a.len(),
{
    if a.len() == 0 {
        assert(a + b =~= b);
        assert(unlines(a) + unlines(b) =~= unlines(b));
    } else {
        assert((a + b).drop_first() =~= a.drop_first() + b);
        lemma_unlines_append(a.drop_first(), b);
        assert(unlines(a + b) =~= unlines(a) + unlines(b));
    }
}

/// The lines of a text followed by one more line holding the pattern.
proof fn lemma_lines_with_entry(c: Seq<char>, p: Seq<char>)
    requires
        is_line_pattern(p),
    ensures
        lines(line_ended(c) + p + seq!['\n']) == lines(line_ended(c)) + seq![p],
{
    let base = line_ended(c);
    let tail = p + seq!['\n'];
    assert(base + p + seq!['\n'] =~= base + tail);
    lemma_lines_append(base, tail);
    let k = p.len() as int;
    assert(tail.subrange(0, k) =~= p);
    lemma_lines_split(tail, k);
    let rest = tail.subrange(k + 1, tail.len() as int);
    assert(rest =~= Seq::<char>::empty());
    lemma_lines_last(rest);
    assert(lines(tail) =~= seq![p]);
}

/// Ensuring the entry twice leaves the file as ensuring it once did: after
/// the first call the entry is there, so the second has nothing to write.
pub proof fn lemma_ensure_idempotent(content: Seq<char>, pattern: Seq<char>)
    requires
        is_line_pattern(pattern),
    ensures
        has_entry(with_entry(content, pattern), pattern),
        with_entry(with_entry(content, pattern), pattern) == with_entry(content, pattern),
{
    if !has_entry(content, pattern) {
        lemma_lines_with_entry(content, pattern);
        let ls = lines(with_entry(content, pattern));
        let k = lines(line_ended(content)).len() as int;
        assert(ls[k] == pattern);
        assert(is_entry(ls[k], pattern));
    }
}

/// Removing the entry right after ensuring it gives back the original file,
/// when the entry was not there before and the file ended in a line feed
/// (or was empty).
pub proof fn lemma_remove_undoes_ensure(content: Seq<char>, pattern: Seq<char>)
    requires
        is_line_pattern(pattern),
        !has_entry(content, pattern),
        content.len() == 0 || content.last() == '\n',
    ensures
        without_entry(with_entry(content, pattern), pattern) == content,
{
    lemma_ensure_idempotent(content, pattern);
    lemma_lines_with_entry(content, pattern);
    let ls = lines(content);
    assert(line_ended(content) == content);
    lemma_kept_append(ls, seq![pattern], pattern);
    assert forall|k: int| 0 <= k < ls.len() implies !is_entry(#[trigger] ls[k], pattern) by {}
    lemma_kept_all(ls, pattern);
    lemma_kept_one(pattern, pattern);
    assert(kept_lines(ls + seq![pattern], pattern) =~= ls);
    lemma_unlines_lines(content);
}

/// Whether one of the lines is the entry.
fn any_entry(ls: &Vec<String>, pattern: &str) -> (r: bool)
    ensures
        r == exists|k: int| 0 <= k < ls@.len() && is_entry(#[trigger] ls@[k]@, pattern@),
{
    let mut i: usize = 0;
    while i < ls.len()
        invariant
            i <= ls@.len(),
            forall|k: int| 0 <= k < i ==> !is_entry(#[trigger] ls@[k]@, pattern@),
        decreases ls@.len() - i,
    {
        if same_text(trim(ls[i].as_str()), pattern) {
            assert(is_entry(ls@[i as int]@, pattern@));
            return true;
        }
        i = i + 1;
    }
    false
}

/// Whether some line of `content` is the entry `pattern`.
pub fn has_exclusion(content: &str, pattern: &str) -> (r: bool)
    ensures
        r == has_entry(content@, pattern@),
{
    let ls = split_lines(content);
    let r = any_entry(&ls, pattern);
    proof {
        assert forall|k: int| 0 <= k < ls@.len() implies #[trigger] ls@[k]@ == lines(content@)[k] by {
            assert(views(ls@)[k] == ls@[k]@);
        }
        if has_entry(content@, pattern@) {
            let k = choose|k: int|
                0 <= k < lines(content@).len() && is_entry(
                    #[trigger] lines(content@)[k],
                    pattern@,
                );
            assert(ls@[k]@ == lines(content@)[k]);
        }
    }
    r
}

/// The text to write so that the ignore file holds the entry `pattern`:
/// `None` when some line already is the entry, else the file with the
/// pattern on a line of its own at the end, after a line feed if the file
/// did not end in one.
pub fn ensure_excluded(content: &str, pattern: &str) -> (r: Option<String>)
    ensures
        r is None <==> has_entry(content@, pattern@),
        r matches Some(t) ==> t@ == with_entry(content@, pattern@),
{
    if has_exclusion(content, pattern) {
        return None;
    }
    let mut out = String::from_str(content);
    let n = content.unicode_len();
    proof {
        reveal_strlit("\n");
    }
    if n > 0 && content.get_char(n - 1) != '\n' {
        out.append("\n");
    }
    assert(out@ == line_ended(content@));
    out.append(pattern);
    out.append("\n");
    Some(out)
}

/// The text to write so that no line of the ignore file is the entry
/// `pattern`: `None` when none is, else the other lines, each ending in a
/// line feed.
pub fn remove_excluded(content: &str, pattern: &str) -> (r: Option<String>)
    ensures
        r is None <==> !has_entry(content@, pattern@),
        r matches Some(t) ==> t@ == without_entry(content@, pattern@),
{
    if !has_exclusion(content, pattern) {
        return None;
    }
    let ls = split_lines(content);
    let ghost lv = views(ls@);
    let mut out = String::new();
    let mut i: usize = 0;
    proof {
        reveal_strlit("\n");
        assert(lv.subrange(0, 0) =~= Seq::<Seq<char>>::empty());
    }
    while i < ls.len()
        invariant
            i <= ls@.len(),
            lv == views(ls@),
            lv == lines(content@),
            out@ == unlines(kept_lines(lv.subrange(0, i as int), pattern@)),
        decreases ls@.len() - i,
    {
        let line = ls[i].as_str();
        let keep = !same_text(trim(line), pattern);
        proof {
            let x = lv[i as int];
            assert(x == ls@[i as int]@);
            assert(lv.subrange(0, i + 1) =~= lv.subrange(0, i as int) + seq![x]);
            lemma_kept_append(lv.subrange(0, i as int), seq![x], pattern@);
            assert(seq![x].drop_first() =~= Seq::<Seq<char>>::empty());
            lemma_unlines_append(
                kept_lines(lv.subrange(0, i as int), pattern@),
                kept_lines(seq![x], pattern@),
            );
            lemma_kept_one(x, pattern@);
            reveal_strlit("\n");
            if !keep {
                assert(unlines(Seq::<Seq<char>>::empty()) =~= Seq::<char>::empty());
            }
        }
        if keep {
            out.append(line);
            out.append("\n");
        }
        i = i + 1;
    }
    assert(lv.subrange(0, ls@.len() as int) =~= lv);
    Some(out)
}

/// What to do with the ignore file after it was read (`Event::Text`, where
/// no file reads as empty): `Some(Some(t))` write `t`, `Some(None)` leave it,
/// `None` the read failed.
pub open spec fn ignore_file_update(e: EventView) -> Option<Option<Seq<char>>> {
    match e {
        EventView::Text(t) => {
            let c = match t {
                Some(c) => c,
                None => Seq::empty(),
            };
            if has_entry(c, ".trunk"@) {
                Some(None)
            } else {
                Some(Some(with_entry(c, ".trunk"@)))
            }
        },
        _ => None,
    }
}

/// What to do with the ignore file after it was read.
pub fn ignore_file_update_for(e: &Event) -> (r: Option<Option<String>>)
    ensures
        r is None <==> ignore_file_update(e@) is None,
        r matches Some(None) ==> ignore_file_update(e@) == Some(None::<Seq<char>>),
        r matches Some(Some(t)) ==> ignore_file_update(e@) == Some(Some(t@)),
{
    match e {
        Event::Text(t) => {
            let c: &str = match t {
                Some(c) => c.as_str(),
                None => {
                    proof {
                        reveal_strlit("");
                    }
                    ""
                },
            };
            Some(ensure_trunk_in_gitignore(c))
        },
        _ => None,
    }
}

/// The ignore file's new text once the entry is to go, after it was read
/// (`Event::Text`): `None` when there is nothing to write (no file, no
/// entry, or the read failed).
pub open spec fn ignore_file_removal(e: EventView) -> Option<Seq<char>> {
    match e {
        EventView::Text(Some(c)) => if has_entry(c, ".trunk"@) {
            Some(without_entry(c, ".trunk"@))
        } else {
            None
        },
        _ => None,
    }
}

/// The ignore file's new text once the entry is to go, after it was read.
pub fn ignore_file_removal_for(e: &Event) -> (r: Option<String>)
    ensures
        r is None <==> ignore_file_removal(e@) is None,
        r matches Some(t) ==> ignore_file_removal(e@) == Some(t@),
{
    match e {
        Event::Text(Some(c)) => remove_trunk_from_gitignore(c.as_str()),
        _ => None,
    }
}

/// The entry that keeps the store directories out of the main history.
pub fn ensure_trunk_in_gitignore(content: &str) -> (r: Option<String>)
    ensures
        r is None <==> has_entry(content@, ".trunk"@),
        r matches Some(t) ==> t@ == with_entry(content@, ".trunk"@),
{
    ensure_excluded(content, ".trunk")
}

/// Removes the entry that keeps the store directories out of the main history.
pub fn remove_trunk_from_gitignore(content: &str) -> (r: Option<String>)
    ensures
        r is None <==> !has_entry(content@, ".trunk"@),
        r matches Some(t) ==> t@ == without_entry(content@, ".trunk"@),
{
    remove_excluded(content, ".trunk")
}

} // verus!
