//! The offline merge: every per-rank trace is gathered into one sequence that
//! is put in global timestamp order.

use crate::event::Event;
use rayon::slice::ParallelSliceMut;
use vstd::prelude::*;
use vstd::multiset::Multiset;
use vstd::seq_lib::*;

verus! {

/// Whether timestamps never decrease along `s`.
pub open spec fn sorted_by_tsc(s: Seq<Event>) -> bool {
    forall|i: int, j: int| 0 <= i <= j < s.len() ==> s[i].tsc() <= s[j].tsc()
}

/// The contents of each trace.
pub open spec fn views(traces: Seq<Vec<Event>>) -> Seq<Seq<Event>> {
    traces.map_values(|t: Vec<Event>| t@)
}

/// The traces laid end to end, in order.
pub open spec fn concat_all(traces: Seq<Seq<Event>>) -> Seq<Event>
    decreases traces.len(),
{
    if traces.len() == 0 {
        Seq::empty()
    } else {
        concat_all(traces.drop_last()) + traces.last()
    }
}

/// The records of all traces, counted with multiplicity.
pub open spec fn union_all(traces: Seq<Seq<Event>>) -> Multiset<Event>
    decreases traces.len(),
{
    if traces.len() == 0 {
        Multiset::empty()
    } else {
        union_all(traces.drop_last()).add(traces.last().to_multiset())
    }
}

/// Laying traces end to end neither adds nor drops a record: the result holds
/// exactly the union, with multiplicity, of the traces' records.
pub proof fn lemma_concat_is_union(traces: Seq<Seq<Event>>)
    ensures
        concat_all(traces).to_multiset() == union_all(traces),
    decreases traces.len(),
{
    broadcast use group_to_multiset_ensures;

    if traces.len() > 0 {
        lemma_concat_is_union(traces.drop_last());
        lemma_multiset_commutative(concat_all(traces.drop_last()), traces.last());
    }
}

/// Sorting a trace that is already in timestamp order changes nothing but the
/// order among records that share a timestamp: any rearrangement of the same
/// records that is also in timestamp order has the same timestamp at every
/// position.
pub proof fn lemma_resort_keeps_timestamps(s: Seq<Event>, t: Seq<Event>)
    requires
        sorted_by_tsc(s),
        sorted_by_tsc(t),
        t.to_multiset() == s.to_multiset(),
    ensures
        t.len() == s.len(),
        forall|i: int| 0 <= i < s.len() ==> #[trigger] t[i].tsc() == s[i].tsc(),
    decreases s.len(),
{
    broadcast use group_to_multiset_ensures;

    assert(t.len() == s.len()) by {
        s.to_multiset_ensures();
        t.to_multiset_ensures();
    }
    if s.len() > 0 {
        let n = s.len() as int;
        let x = s[n - 1];
        let y = t[n - 1];
        s.to_multiset_ensures();
        t.to_multiset_ensures();
        assert(s.contains(x));
        assert(s.to_multiset().count(x) > 0);
        assert(t.to_multiset().count(x) > 0);
        assert(t.contains(x));
        let j = choose|j: int| 0 <= j < n && t[j] == x;
        assert(t.contains(y));
        assert(t.to_multiset().count(y) > 0);
        assert(s.to_multiset().count(y) > 0);
        assert(s.contains(y));
        let k = choose|k: int| 0 <= k < n && s[k] == y;
        assert(y.tsc() <= x.tsc());
        assert(x.tsc() <= y.tsc());
        // Every record of `t` from position `j` on carries the largest timestamp.
        assert forall|i: int| j <= i < n implies #[trigger] t[i].tsc() == x.tsc() by {}
        let t2 = t.remove(j);
        let s2 = s.drop_last();
        assert(s2 =~= s.remove(n - 1));
        assert(t2.to_multiset() == s2.to_multiset());
        assert forall|a: int, b: int| 0 <= a <= b < t2.len() implies t2[a].tsc() <= t2[b].tsc() by {
            let ia = if a < j { a } else { a + 1 };
            let ib = if b < j { b } else { b + 1 };
            assert(t2[a] == t[ia]);
            assert(t2[b] == t[ib]);
        }
        lemma_resort_keeps_timestamps(s2, t2);
        assert forall|i: int| 0 <= i < s.len() implies #[trigger] t[i].tsc() == s[i].tsc() by {
            if i < j {
                assert(t2[i] == t[i]);
                assert(s2[i] == s[i]);
            } else if i < n - 1 {
                assert(t2[i] == t[i + 1]);
                assert(s2[i] == s[i]);
                assert(t[i + 1].tsc() == x.tsc());
            }
        }
    }
}

/// Relies on rayon's `par_sort_unstable_by_key`: reorders the elements, in
/// parallel, so that their keys ascend.
#[verifier::external_body]
fn par_sort_by_tsc(events: &mut Vec<Event>)
    ensures
        final(events)@.to_multiset() == old(events)@.to_multiset(),
        sorted_by_tsc(final(events)@),
{
    events.par_sort_unstable_by_key(|e| e.tsc());
}

/// All records of `traces`, trace after trace, each in its own order.
pub fn concat_traces(traces: &Vec<Vec<Event>>) -> (r: Vec<Event>)
    ensures
        r@ == concat_all(views(traces@)),
{
    let mut all: Vec<Event> = Vec::new();
    let mut i: usize = 0;
    while i < traces.len()
        invariant
            i <= traces@.len(),
            all@ == concat_all(views(traces@).subrange(0, i as int)),
        decreases traces@.len() - i,
    {
        let t = &traces[i];
        let mut j: usize = 0;
        while j < t.len()
            invariant
                i < traces@.len(),
                *t == traces@[i as int],
                j <= t@.len(),
                all@ == concat_all(views(traces@).subrange(0, i as int)) + t@.subrange(0, j as int),
            decreases t@.len() - j,
        {
            all.push(t[j]);
            j = j + 1;
        }
        proof {
            let done = views(traces@).subrange(0, i + 1);
            assert(done.drop_last() =~= views(traces@).subrange(0, i as int));
            assert(t@.subrange(0, j as int) =~= t@);
        }
        i = i + 1;
    }
    proof {
        assert(views(traces@).subrange(0, i as int) =~= views(traces@));
    }
    all
}

/// Merges per-rank traces into one trace in global timestamp order. The
/// result holds exactly the records of all inputs, counted with multiplicity;
/// the order among records that share a timestamp is left open.
pub fn merge_traces(traces: &Vec<Vec<Event>>) -> (r: Vec<Event>)
    ensures
        r@.to_multiset() == union_all(views(traces@)),
        sorted_by_tsc(r@),
{
    let mut all = concat_traces(traces);
    par_sort_by_tsc(&mut all);
    proof {
        lemma_concat_is_union(views(traces@));
    }
    all
}

/// Name of the directory, shared by all ranks, that holds the traces.
pub const TRACE_DIR: &'static str = "interpol-tmp";

/// Name of the consolidated trace inside `TRACE_DIR`.
pub const CONSOLIDATED_FILE: &'static str = "interpol_traces.json";

/// What the merge does with an entry of the trace directory.
#[derive(Clone, Copy, Debug, PartialEq, Eq, Structural)]
pub enum EntryRole {
    /// The output of an earlier merge: removed, never read.
    Consolidated,
    /// A per-rank trace: read and merged.
    RankTrace,
    /// Anything else: left alone.
    Other,
}

/// The role of the directory entry named `name`: a per-rank trace is any
/// other name with a non-empty stem and the extension `json`.
pub open spec fn role_of(name: Seq<char>) -> EntryRole {
    if name == "interpol_traces.json"@ {
        EntryRole::Consolidated
    } else if name.len() > 5 && name.subrange(name.len() - 5, name.len() as int) == ".json"@ {
        EntryRole::RankTrace
    } else {
        EntryRole::Other
    }
}

/// Whether `a` and `b` hold the same characters.
fn same_text(a: &str, b: &str) -> (r: bool)
    ensures
        r == (a@ == b@),
{
    let n = a.unicode_len();
    if n != b.unicode_len() {
        return false;
    }
    let mut i: usize = 0;
    while i < n
        invariant
            n == a@.len(),
            n == b@.len(),
            i <= n,
            a@.subrange(0, i as int) == b@.subrange(0, i as int),
        decreases n - i,
    {
        if a.get_char(i) != b.get_char(i) {
            return false;
        }
        proof {
            assert(a@.subrange(0, i + 1) =~= a@.subrange(0, i as int).push(a@[i as int]));
            assert(b@.subrange(0, i + 1) =~= b@.subrange(0, i as int).push(b@[i as int]));
        }
        i = i + 1;
    }
    proof {
        assert(a@ =~= a@.subrange(0, n as int));
        assert(b@ =~= b@.subrange(0, n as int));
    }
    true
}

/// Whether `name` is longer than `suffix` and ends with it.
fn ends_after_stem(name: &str, suffix: &str) -> (r: bool)
    ensures
        r == (name@.len() > suffix@.len() && name@.subrange(
            name@.len() - suffix@.len(),
            name@.len() as int,
        ) == suffix@),
{
    let n = name.unicode_len();
    let m = suffix.unicode_len();
    if n <= m {
        return false;
    }
    let start = n - m;
    let mut i: usize = 0;
    while i < m
        invariant
            n == name@.len(),
            m == suffix@.len(),
            start == n - m,
            i <= m,
            name@.subrange(start as int, start + i) == suffix@.subrange(0, i as int),
        decreases m - i,
    {
        if name.get_char(start + i) != suffix.get_char(i) {
            assert(name@.subrange(start as int, n as int)[i as int] != suffix@[i as int]);
            return false;
        }
        proof {
            assert(name@.subrange(start as int, start + i + 1) =~= name@.subrange(
                start as int,
                start + i,
            ).push(name@[start + i]));
            assert(suffix@.subrange(0, i + 1) =~= suffix@.subrange(0, i as int).push(
                suffix@[i as int],
            ));
        }
        i = i + 1;
    }
    proof {
        assert(suffix@ =~= suffix@.subrange(0, m as int));
    }
    true
}

/// Decides what the merge does with the directory entry named `name`.
pub fn entry_role(name: &str) -> (r: EntryRole)
    ensures
        r == role_of(name@),
{
    proof {
        reveal_strlit(".json");
    }
    if same_text(name, "interpol_traces.json") {
        EntryRole::Consolidated
    } else if ends_after_stem(name, ".json") {
        EntryRole::RankTrace
    } else {
        EntryRole::Other
    }
}

/// The characters of each name.
pub open spec fn texts(names: Seq<String>) -> Seq<Seq<char>> {
    names.map_values(|n: String| n@)
}

/// The names, in listing order, of the entries that the merge reads.
pub open spec fn inputs_of(names: Seq<Seq<char>>) -> Seq<Seq<char>>
    decreases names.len(),
{
    if names.len() == 0 {
        Seq::empty()
    } else if role_of(names.last()) == EntryRole::RankTrace {
        inputs_of(names.drop_last()).push(names.last())
    } else {
        inputs_of(names.drop_last())
    }
}

/// Selection distributes over listings laid end to end.
pub proof fn lemma_inputs_of_concat(a: Seq<Seq<char>>, b: Seq<Seq<char>>)
    ensures
        inputs_of(a + b) == inputs_of(a) + inputs_of(b),
    decreases b.len(),
{
    if b.len() == 0 {
        assert(a + b =~= a);
        assert(inputs_of(a) + inputs_of(b) =~= inputs_of(a));
    } else {
        assert((a + b).drop_last() =~= a + b.drop_last());
        lemma_inputs_of_concat(a, b.drop_last());
        if role_of(b.last()) == EntryRole::RankTrace {
            assert(inputs_of(a) + inputs_of(b.drop_last()).push(b.last()) =~= (inputs_of(a)
                + inputs_of(b.drop_last())).push(b.last()));
        }
    }
}

/// Merging again over a directory whose only new entry is the consolidated
/// trace of an earlier merge reads the same inputs, so the new consolidated
/// trace replaces the old one instead of holding its records twice.
pub proof fn lemma_rerun_reads_same_inputs(before: Seq<Seq<char>>, after: Seq<Seq<char>>)
    ensures
        inputs_of(before + seq!["interpol_traces.json"@] + after) == inputs_of(before + after),
{
    let c = seq!["interpol_traces.json"@];
    lemma_inputs_of_concat(before + c, after);
    lemma_inputs_of_concat(before, c);
    lemma_inputs_of_concat(before, after);
    assert(c.drop_last() =~= Seq::<Seq<char>>::empty());
    assert(role_of(c.last()) == EntryRole::Consolidated);
    assert(inputs_of(c.drop_last()) =~= Seq::<Seq<char>>::empty());
    assert(inputs_of(c) =~= Seq::<Seq<char>>::empty());
    assert(inputs_of(before) + inputs_of(c) =~= inputs_of(before));
}

/// The names, in listing order, of the entries that the merge reads.
pub fn select_inputs(names: &Vec<String>) -> (r: Vec<String>)
    ensures
        texts(r@) == inputs_of(texts(names@)),
{
    let mut out: Vec<String> = Vec::new();
    let mut i: usize = 0;
    while i < names.len()
        invariant
            i <= names@.len(),
            texts(out@) == inputs_of(texts(names@).subrange(0, i as int)),
        decreases names@.len() - i,
    {
        let role = entry_role(names[i].as_str());
        proof {
            let prefix = texts(names@).subrange(0, i + 1);
            assert(prefix.drop_last() =~= texts(names@).subrange(0, i as int));
            assert(prefix.last() == names@[i as int]@);
        }
        if role == EntryRole::RankTrace {
            let name = names[i].clone();
            let ghost before = out@;
            out.push(name);
            proof {
                assert(texts(out@) =~= texts(before).push(name@));
            }
        }
        i = i + 1;
    }
    proof {
        assert(texts(names@).subrange(0, i as int) =~= texts(names@));
    }
    out
}

/// How the consolidated trace is laid out.
#[derive(Clone, Copy, Debug, PartialEq, Eq, Structural)]
pub enum OutputStyle {
    /// Indented, one field per line.
    Pretty,
    /// On one line.
    Compact,
}

/// The layout chosen by a configuration value: `readable` asks for an
/// indented trace; any other value, or none, for a compact one.
pub fn output_style(setting: Option<&str>) -> (r: OutputStyle)
    ensures
        r == (if setting is Some && setting->0@ == "readable"@ {
            OutputStyle::Pretty
        } else {
            OutputStyle::Compact
        }),
{
    match setting {
        Some(value) => {
            if same_text(value, "readable") {
                OutputStyle::Pretty
            } else {
                OutputStyle::Compact
            }
        },
        None => OutputStyle::Compact,
    }
}

} // verus!
