//! Separator-delimited lists in text, and the string building blocks that
//! the rest of the library composes its messages and addresses from.
use vstd::prelude::*;

verus! {

/// The fields of `s` between occurrences of `sep`, as `str::split` yields
/// them: one more field than there are separators, empty ones included.
pub open spec fn split_fields(s: Seq<char>, sep: char) -> Seq<Seq<char>>
    decreases s.len(),
{
    if s.len() == 0 {
        seq![Seq::<char>::empty()]
    } else {
        let rest = split_fields(s.drop_last(), sep);
        if s.last() == sep {
            rest.push(Seq::<char>::empty())
        } else {
            rest.update(rest.len() - 1, rest.last().push(s.last()))
        }
    }
}

/// The fields of `parts` joined with `sep` between each two.
pub open spec fn join_fields(parts: Seq<Seq<char>>, sep: char) -> Seq<char>
    decreases parts.len(),
{
    if parts.len() == 0 {
        Seq::<char>::empty()
    } else if parts.len() == 1 {
        parts[0]
    } else {
        join_fields(parts.drop_last(), sep).push(sep) + parts.last()
    }
}

/// The non-empty entries of `parts`, in order.
pub open spec fn non_empty(parts: Seq<Seq<char>>) -> Seq<Seq<char>>
    decreases parts.len(),
{
    if parts.len() == 0 {
        Seq::<Seq<char>>::empty()
    } else if parts.last().len() == 0 {
        non_empty(parts.drop_last())
    } else {
        non_empty(parts.drop_last()).push(parts.last())
    }
}

/// The entries of `list` that a separated string yields, empty ones left out.
pub open spec fn list_entries(s: Seq<char>, sep: char) -> Seq<Seq<char>> {
    non_empty(split_fields(s, sep))
}

/// Calls `String::push`; the contract claims that it appends the character
/// to the string's text.
#[verifier::external_body]
pub(crate) fn push_char(s: &mut String, c: char)
    ensures
        final(s)@ == old(s)@.push(c),
{
    s.push(c)
}

/// Copies a string slice into a new string.
pub fn owned(s: &str) -> (r: String)
    ensures
        r@ == s@,
{
    String::from_str(s)
}

/// The concatenation of two texts.
pub fn concat2(a: &str, b: &str) -> (r: String)
    ensures
        r@ == a@ + b@,
{
    let mut r = String::from_str(a);
    r.append(b);
    r
}

/// The concatenation of three texts.
pub fn concat3(a: &str, b: &str, c: &str) -> (r: String)
    ensures
        r@ == a@ + b@ + c@,
{
    let mut r = String::from_str(a);
    r.append(b);
    r.append(c);
    r
}

/// Splits `s` at each `sep` and keeps the non-empty fields, in order.
pub fn split_non_empty(s: &str, sep: char) -> (r: Vec<String>)
    ensures
        r.deep_view() == list_entries(s@, sep),
{
    broadcast use vstd::string::group_string_axioms;

    let mut done: Vec<String> = Vec::new();
    let mut cur = String::new();
    let ghost mut i: int = 0;
    for c in it: s.chars()
        invariant
            it.seq() == s@,
            i == it.index(),
            i <= s@.len(),
            split_fields(s@.take(i), sep).len() > 0,
            cur@ == split_fields(s@.take(i), sep).last(),
            done.deep_view() == non_empty(split_fields(s@.take(i), sep).drop_last()),
    {
        let ghost before = split_fields(s@.take(i), sep);
        assert(s@.take(i + 1).drop_last() =~= s@.take(i));
        assert(s@.take(i + 1).last() == c);
        if c == sep {
            assert(split_fields(s@.take(i + 1), sep) == before.push(Seq::<char>::empty()));
            assert(before.push(Seq::<char>::empty()).drop_last() =~= before);
            if !cur.as_str().is_empty() {
                let ghost old_done = done.deep_view();
                done.push(cur);
                assert(done.deep_view() =~= old_done.push(before.last()));
            }
            cur = String::new();
        } else {
            let ghost after = before.update(before.len() - 1, before.last().push(c));
            assert(split_fields(s@.take(i + 1), sep) == after);
            assert(after.drop_last() =~= before.drop_last());
            push_char(&mut cur, c);
        }
        proof {
            i = i + 1;
        }
    }
    assert(s@.take(s@.len() as int) =~= s@);
    let ghost fields = split_fields(s@, sep);
    assert(fields.drop_last().push(fields.last()) =~= fields);
    if !cur.as_str().is_empty() {
        let ghost old_done = done.deep_view();
        done.push(cur);
        assert(done.deep_view() =~= old_done.push(fields.last()));
    }
    done
}

/// A split string has one more field than separators, and no field
/// holds the separator.
pub proof fn lemma_split_fields_have_no_separator(s: Seq<char>, sep: char)
    ensures
        split_fields(s, sep).len() > 0,
        forall|k: int|
            0 <= k < split_fields(s, sep).len() ==> !(#[trigger] split_fields(s, sep)[k]).contains(sep),
    decreases s.len(),
{
    if s.len() > 0 {
        lemma_split_fields_have_no_separator(s.drop_last(), sep);
        let rest = split_fields(s.drop_last(), sep);
        if s.last() != sep {
            let grown = rest.last().push(s.last());
            assert forall|k: int| 0 <= k < grown.len() implies grown[k] != sep by {
                if k < rest.last().len() {
                    assert(!rest.last().contains(sep));
                    assert(grown[k] == rest.last()[k]);
                }
            }
        }
    }
}

/// The entries that `non_empty` keeps are entries of the list, none empty.
proof fn lemma_non_empty_entries(parts: Seq<Seq<char>>)
    ensures
        forall|k: int| 0 <= k < non_empty(parts).len() ==> (#[trigger] non_empty(parts)[k]).len() > 0
            && parts.contains(non_empty(parts)[k]),
    decreases parts.len(),
{
    if parts.len() > 0 {
        let init = parts.drop_last();
        lemma_non_empty_entries(init);
        assert forall|k: int| 0 <= k < non_empty(parts).len() implies (#[trigger] non_empty(parts)[k]).len() > 0
            && parts.contains(non_empty(parts)[k]) by {
            if k < non_empty(init).len() {
                let e = non_empty(init)[k];
                assert(non_empty(parts)[k] == e);
                let w = choose|w: int| 0 <= w < init.len() && init[w] == e;
                assert(parts[w] == e);
            } else {
                assert(parts[parts.len() - 1] == parts.last());
            }
        }
    }
}

/// The entries of a separated list are non-empty and hold no separator.
pub proof fn lemma_list_entries_are_clean(s: Seq<char>, sep: char)
    ensures
        forall|k: int| 0 <= k < list_entries(s, sep).len() ==> (#[trigger] list_entries(s, sep)[k]).len() > 0
            && !list_entries(s, sep)[k].contains(sep),
{
    let fields = split_fields(s, sep);
    lemma_non_empty_entries(fields);
    lemma_split_fields_have_no_separator(s, sep);
    assert forall|k: int| 0 <= k < list_entries(s, sep).len() implies (#[trigger] list_entries(s, sep)[k]).len() > 0
        && !list_entries(s, sep)[k].contains(sep) by {
        let e = non_empty(fields)[k];
        assert(fields.contains(e));
        let w = choose|w: int| 0 <= w < fields.len() && fields[w] == e;
        assert(!fields[w].contains(sep));
    }
}

/// Joining the fields of a split string with the same separator gives the
/// string back.
pub proof fn lemma_join_split(s: Seq<char>, sep: char)
    ensures
        join_fields(split_fields(s, sep), sep) == s,
    decreases s.len(),
{
    if s.len() > 0 {
        let p = s.drop_last();
        lemma_join_split(p, sep);
        lemma_split_fields_have_no_separator(p, sep);
        let rest = split_fields(p, sep);
        if s.last() == sep {
            let f = rest.push(Seq::<char>::empty());
            assert(f.drop_last() =~= rest);
            assert(join_fields(f, sep) =~= p.push(sep));
            assert(p.push(sep) =~= s);
        } else {
            let f = rest.update(rest.len() - 1, rest.last().push(s.last()));
            assert(f.drop_last() =~= rest.drop_last());
            if rest.len() == 1 {
                assert(rest[0] =~= p);
                assert(join_fields(f, sep) =~= s);
            } else {
                let head = join_fields(rest.drop_last(), sep).push(sep);
                assert(join_fields(rest, sep) == head + rest.last());
                assert(join_fields(f, sep) == head + rest.last().push(s.last()));
                assert(head + rest.last().push(s.last()) =~= (head + rest.last()).push(s.last()));
                assert(p.push(s.last()) =~= s);
            }
        }
    }
}

/// Splitting the join of separator-free fields gives those fields back.
pub proof fn lemma_split_join(parts: Seq<Seq<char>>, sep: char)
    requires
        parts.len() > 0,
        forall|k: int| 0 <= k < parts.len() ==> !(#[trigger] parts[k]).contains(sep),
    ensures
        split_fields(join_fields(parts, sep), sep) == parts,
    decreases parts.len(),
{
    if parts.len() == 1 {
        lemma_split_plain(Seq::<Seq<char>>::empty(), Seq::<char>::empty(), parts[0], sep);
        assert(parts[0] =~= Seq::<char>::empty() + parts[0]);
        assert(seq![Seq::<char>::empty()].update(0, parts[0]) =~= parts);
        assert(join_fields(parts, sep) == parts[0]);
    } else {
        let init = parts.drop_last();
        assert forall|k: int| 0 <= k < init.len() implies !(#[trigger] init[k]).contains(sep) by {
            assert(init[k] == parts[k]);
        }
        lemma_split_join(init, sep);
        let head = join_fields(init, sep).push(sep);
        assert(head.drop_last() =~= join_fields(init, sep));
        assert(split_fields(head, sep) == init.push(Seq::<char>::empty()));
        assert(!parts[parts.len() - 1].contains(sep));
        lemma_split_plain(init, head, parts.last(), sep);
        assert(init.push(Seq::<char>::empty()).update(init.len() as int, parts.last()) =~= parts);
    }
}

/// Appending separator-free text to a string extends its last field.
proof fn lemma_split_plain(init: Seq<Seq<char>>, head: Seq<char>, tail: Seq<char>, sep: char)
    requires
        split_fields(head, sep) == init.push(Seq::<char>::empty()),
        !tail.contains(sep),
    ensures
        split_fields(head + tail, sep) == init.push(Seq::<char>::empty()).update(init.len() as int, tail),
    decreases tail.len(),
{
    if tail.len() == 0 {
        assert(tail =~= Seq::<char>::empty());
        assert(head + tail =~= head);
        assert(init.push(Seq::<char>::empty()).update(init.len() as int, tail) =~= init.push(Seq::<char>::empty()));
    } else {
        let t0 = tail.drop_last();
        assert(!t0.contains(sep)) by {
            if t0.contains(sep) {
                let k = choose|k: int| 0 <= k < t0.len() && t0[k] == sep;
                assert(tail[k] == sep);
            }
        }
        assert(tail.last() != sep) by {
            assert(tail[tail.len() - 1] == tail.last());
        }
        lemma_split_plain(init, head, t0, sep);
        let s = head + tail;
        assert(s.drop_last() =~= head + t0);
        assert(s.last() == tail.last());
        assert(t0.push(tail.last()) =~= tail);
        assert(split_fields(s, sep) =~= init.push(Seq::<char>::empty()).update(init.len() as int, tail));
    }
}

} // verus!
