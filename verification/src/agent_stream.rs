//! Merging of streamed assistant text and tool-call fragments.
//!
//! Providers send either token deltas or repeated full snapshots; merging keeps
//! exactly one copy of every piece of text.
use vstd::prelude::*;

use crate::protocol::ChatCompletionToolCallDelta;
use crate::text::{
    chars_of, decimal, ends_with, push_chars, push_decimal, slice_chars, starts_with, string_from_chars,
    ends_with_exec,
};

verus! {

/// Largest `k <= bound` such that the first `k` characters of `incoming` end `target`.
pub open spec fn overlap_upto(target: Seq<char>, incoming: Seq<char>, bound: int) -> int
    decreases bound,
{
    if bound <= 0 {
        0
    } else if ends_with(target, incoming.take(bound)) {
        bound
    } else {
        overlap_upto(target, incoming, bound - 1)
    }
}

/// Length of the longest prefix of `incoming` that is also a suffix of `target`.
pub open spec fn overlap_len(target: Seq<char>, incoming: Seq<char>) -> int {
    overlap_upto(target, incoming, incoming.len() as int)
}

/// The part of `incoming` that is not already at the end of `target`.
pub open spec fn new_suffix(target: Seq<char>, incoming: Seq<char>) -> Seq<char> {
    incoming.skip(overlap_len(target, incoming))
}

/// `target` with `incoming` merged in: the overlapping part is kept once.
pub open spec fn merged(target: Seq<char>, incoming: Seq<char>) -> Seq<char> {
    target + new_suffix(target, incoming)
}

/// Properties of `overlap_upto`: in range, a real overlap, and the largest one.
pub proof fn lemma_overlap_upto(target: Seq<char>, incoming: Seq<char>, bound: int)
    requires
        bound <= incoming.len(),
    ensures
        0 <= overlap_upto(target, incoming, bound),
        bound >= 0 ==> overlap_upto(target, incoming, bound) <= bound,
        ends_with(target, incoming.take(overlap_upto(target, incoming, bound))),
        forall|j: int|
            overlap_upto(target, incoming, bound) < j <= bound ==> !ends_with(
                target,
                #[trigger] incoming.take(j),
            ),
    decreases bound,
{
    if bound <= 0 {
        assert(incoming.take(0) =~= Seq::<char>::empty());
        assert(target.skip(target.len() as int) =~= Seq::<char>::empty());
    } else if ends_with(target, incoming.take(bound)) {
    } else {
        lemma_overlap_upto(target, incoming, bound - 1);
    }
}

/// The overlap is a real overlap, and no longer prefix of `incoming` ends `target`.
pub proof fn lemma_overlap_len(target: Seq<char>, incoming: Seq<char>)
    ensures
        0 <= overlap_len(target, incoming) <= incoming.len(),
        overlap_len(target, incoming) <= target.len(),
        ends_with(target, incoming.take(overlap_len(target, incoming))),
        forall|j: int|
            overlap_len(target, incoming) < j <= incoming.len() ==> !ends_with(
                target,
                #[trigger] incoming.take(j),
            ),
{
    lemma_overlap_upto(target, incoming, incoming.len() as int);
}

/// If `target` ends with all of `incoming`, the overlap is all of `incoming`.
pub proof fn lemma_overlap_full(target: Seq<char>, incoming: Seq<char>)
    requires
        ends_with(target, incoming),
    ensures
        overlap_len(target, incoming) == incoming.len(),
{
    assert(incoming.take(incoming.len() as int) == incoming);
    lemma_overlap_len(target, incoming);
}

/// If `incoming` begins with `target`, the overlap is all of `target`.
pub proof fn lemma_overlap_prefix(target: Seq<char>, incoming: Seq<char>)
    requires
        starts_with(incoming, target),
    ensures
        overlap_len(target, incoming) == target.len(),
{
    lemma_overlap_len(target, incoming);
    let k = target.len() as int;
    assert(incoming.take(k) == target);
    assert(target.skip(0) == target);
    assert(ends_with(target, incoming.take(k)));
}

/// The merged text always ends with the incoming chunk.
pub proof fn lemma_merged_ends_with_incoming(target: Seq<char>, incoming: Seq<char>)
    ensures
        ends_with(merged(target, incoming), incoming),
{
    lemma_overlap_len(target, incoming);
    let k = overlap_len(target, incoming);
    let m = merged(target, incoming);
    assert(incoming == incoming.take(k) + incoming.skip(k));
    assert(m.skip(m.len() - incoming.len()) =~= target.skip(target.len() - k) + incoming.skip(k));
}

/// Length of the longest prefix of `incoming` that ends `target`.
fn overlap_exec(target: &[char], incoming: &[char]) -> (k: usize)
    ensures
        k as int == overlap_len(target@, incoming@),
{
    let mut k = incoming.len();
    assert(incoming@.take(k as int) == incoming@);
    while k > 0
        invariant
            k <= incoming.len(),
            overlap_len(target@, incoming@) == overlap_upto(target@, incoming@, k as int),
        decreases k,
    {
        let prefix = slice_chars(incoming, 0, k);
        assert(prefix@ == incoming@.take(k as int));
        if ends_with_exec(target, prefix.as_slice()) {
            return k;
        }
        k -= 1;
    }
    k
}

/// Appends the part of `incoming` that does not overlap the end of `target`,
/// and returns that part.
pub fn append_with_overlap(target: &mut String, incoming: &str) -> (appended: String)
    ensures
        appended@ == new_suffix(old(target)@, incoming@),
        final(target)@ == merged(old(target)@, incoming@),
{
    let t = chars_of(target.as_str());
    let inc = chars_of(incoming);
    let k = overlap_exec(t.as_slice(), inc.as_slice());
    proof {
        lemma_overlap_len(t@, inc@);
    }
    let suffix = slice_chars(inc.as_slice(), k, inc.len());
    let mut all = t;
    push_chars(&mut all, suffix.as_slice());
    *target = string_from_chars(all.as_slice());
    string_from_chars(suffix.as_slice())
}

/// Merges one streamed text chunk into `target`.
///
/// A chunk may be a delta or a full snapshot of the text so far; only the new
/// part is appended and returned, and `None` means nothing was new.
pub fn merge_stream_text(target: &mut String, incoming: &str) -> (r: Option<String>)
    ensures
        final(target)@ == merged(old(target)@, incoming@),
        match r {
            Some(d) => d@ == new_suffix(old(target)@, incoming@) && d@.len() > 0,
            None => new_suffix(old(target)@, incoming@).len() == 0,
        },
{
    let appended = append_with_overlap(target, incoming);
    if appended.as_str().is_empty() {
        None
    } else {
        Some(appended)
    }
}

/// Merges one streamed fragment of a tool-call field (name or arguments).
pub fn merge_stream_field(target: &mut String, delta: &str)
    ensures
        final(target)@ == merged(old(target)@, delta@),
{
    let _ = append_with_overlap(target, delta);
}

/// A tool call as it is assembled from stream fragments.
#[derive(Debug, Clone)]
pub struct PartialToolCall {
    pub id: String,
    pub name: String,
    pub arguments: String,
}

/// The fields of a partial tool call as character sequences.
pub struct PartialCallModel {
    pub id: Seq<char>,
    pub name: Seq<char>,
    pub arguments: Seq<char>,
}

impl View for PartialToolCall {
    type V = PartialCallModel;

    open spec fn view(&self) -> PartialCallModel {
        PartialCallModel { id: self.id@, name: self.name@, arguments: self.arguments@ }
    }
}

/// The empty partial call.
pub open spec fn empty_call() -> PartialCallModel {
    PartialCallModel { id: Seq::empty(), name: Seq::empty(), arguments: Seq::empty() }
}

/// `calls` padded with empty calls so that index `i` exists.
pub open spec fn pad_calls(calls: Seq<PartialCallModel>, i: int) -> Seq<PartialCallModel> {
    if i < calls.len() {
        calls
    } else {
        calls + Seq::new((i + 1 - calls.len()) as nat, |j: int| empty_call())
    }
}

/// The identifier given to a call that the stream sent without one.
pub open spec fn fallback_call_id(index: nat) -> Seq<char> {
    "call_"@ + decimal(index)
}

/// One call after a delta: id fragment appended, name and arguments merged,
/// and a fallback id when the id is still empty.
pub open spec fn apply_to_call(
    c: PartialCallModel,
    d: ChatCompletionToolCallDelta,
) -> PartialCallModel {
    let id = match d.id {
        Some(i) => c.id + i@,
        None => c.id,
    };
    let (name, arguments) = match d.function {
        Some(f) => (
            match f.name {
                Some(n) => merged(c.name, n@),
                None => c.name,
            },
            match f.arguments {
                Some(a) => merged(c.arguments, a@),
                None => c.arguments,
            },
        ),
        None => (c.name, c.arguments),
    };
    PartialCallModel {
        id: if id.len() == 0 { fallback_call_id(d.index as nat) } else { id },
        name,
        arguments,
    }
}

/// The calls after one delta.
pub open spec fn apply_delta(
    calls: Seq<PartialCallModel>,
    d: ChatCompletionToolCallDelta,
) -> Seq<PartialCallModel> {
    let padded = pad_calls(calls, d.index as int);
    padded.update(d.index as int, apply_to_call(padded[d.index as int], d))
}

/// The calls after a sequence of deltas, applied in order.
pub open spec fn apply_deltas(
    calls: Seq<PartialCallModel>,
    ds: Seq<ChatCompletionToolCallDelta>,
) -> Seq<PartialCallModel>
    decreases ds.len(),
{
    if ds.len() == 0 {
        calls
    } else {
        apply_deltas(apply_delta(calls, ds[0]), ds.drop_first())
    }
}

/// Lemma: applying `ds[..i+1]` is applying `ds[..i]` then `ds[i]`.
proof fn lemma_apply_deltas_step(
    calls: Seq<PartialCallModel>,
    ds: Seq<ChatCompletionToolCallDelta>,
    i: int,
)
    requires
        0 <= i < ds.len(),
    ensures
        apply_deltas(calls, ds.take(i + 1)) == apply_delta(apply_deltas(calls, ds.take(i)), ds[i]),
    decreases i,
{
    let first = apply_delta(calls, ds[0]);
    assert(ds.take(i + 1)[0] == ds[0]);
    if i == 0 {
        assert(ds.take(1).drop_first() =~= Seq::<ChatCompletionToolCallDelta>::empty());
        assert(ds.take(0) =~= Seq::<ChatCompletionToolCallDelta>::empty());
        assert(apply_deltas(first, Seq::<ChatCompletionToolCallDelta>::empty()) == first);
        assert(apply_deltas(calls, Seq::<ChatCompletionToolCallDelta>::empty()) == calls);
    } else {
        let rest = ds.drop_first();
        lemma_apply_deltas_step(first, rest, i - 1);
        assert(ds.take(i + 1).drop_first() =~= rest.take(i));
        assert(ds.take(i).drop_first() =~= rest.take(i - 1));
        assert(ds.take(i)[0] == ds[0]);
        assert(rest[i - 1] == ds[i]);
    }
}

/// Folds streamed tool-call deltas into the calls assembled so far.
pub fn accumulate_tool_calls(target: &mut Vec<PartialToolCall>, deltas: &[ChatCompletionToolCallDelta])
    requires
        forall|i: int| 0 <= i < deltas.len() ==> (#[trigger] deltas[i]).index < usize::MAX,
    ensures
        final(target)@.map_values(|c: PartialToolCall| c@) == apply_deltas(
            old(target)@.map_values(|c: PartialToolCall| c@),
            deltas@,
        ),
{
    let ghost start = old(target)@.map_values(|c: PartialToolCall| c@);
    let mut i: usize = 0;
    assert(deltas@.take(0) =~= Seq::<ChatCompletionToolCallDelta>::empty());
    while i < deltas.len()
        invariant
            i <= deltas.len(),
            forall|j: int| 0 <= j < deltas.len() ==> (#[trigger] deltas[j]).index < usize::MAX,
            target@.map_values(|c: PartialToolCall| c@) == apply_deltas(start, deltas@.take(i as int)),
        decreases deltas.len() - i,
    {
        let delta = &deltas[i];
        let ghost before = target@.map_values(|c: PartialToolCall| c@);
        while target.len() <= delta.index
            invariant
                delta.index < usize::MAX,
                before.len() <= target.len(),
                target.len() <= before.len() || target.len() <= delta.index + 1,
                target@.map_values(|c: PartialToolCall| c@) =~= before + Seq::new(
                    (target.len() - before.len()) as nat,
                    |j: int| empty_call(),
                ),
            decreases delta.index + 1 - target.len(),
        {
            let fresh = PartialToolCall {
                id: String::new(),
                name: String::new(),
                arguments: String::new(),
            };
            assert(fresh@.id =~= empty_call().id);
            assert(fresh@.name =~= empty_call().name);
            assert(fresh@.arguments =~= empty_call().arguments);
            assert(fresh@ == empty_call());
            let ghost prev = target@;
            target.push(fresh);
            assert(target@.map_values(|c: PartialToolCall| c@) =~= prev.map_values(
                |c: PartialToolCall| c@,
            ).push(empty_call()));
        }
        assert(target@.map_values(|c: PartialToolCall| c@) =~= pad_calls(before, delta.index as int)) by {
            if before.len() > delta.index {
                assert(target@.len() == before.len());
            }
        }
        let idx = delta.index;
        let mut entry = PartialToolCall {
            id: target[idx].id.clone(),
            name: target[idx].name.clone(),
            arguments: target[idx].arguments.clone(),
        };
        match &delta.id {
            Some(id) => {
                entry.id.append(id.as_str());
            },
            None => {},
        }
        match &delta.function {
            Some(function) => {
                match &function.name {
                    Some(name) => merge_stream_field(&mut entry.name, name.as_str()),
                    None => {},
                }
                match &function.arguments {
                    Some(arguments) => merge_stream_field(&mut entry.arguments, arguments.as_str()),
                    None => {},
                }
            },
            None => {},
        }
        if entry.id.as_str().is_empty() {
            let mut fallback = chars_of("call_");
            push_decimal(&mut fallback, idx);
            entry.id = string_from_chars(fallback.as_slice());
        }
        target.set(idx, entry);
        proof {
            lemma_apply_deltas_step(start, deltas@, i as int);
            assert(target@.map_values(|c: PartialToolCall| c@) =~= apply_delta(before, deltas@[i as int]));
        }
        i += 1;
    }
    assert(deltas@.take(deltas.len() as int) == deltas@);
}

/// The merged text ends with every chunk just merged, whatever came before.
pub proof fn law_merge_ends_with_chunk(target: Seq<char>, incoming: Seq<char>)
    ensures
        ends_with(merged(target, incoming), incoming),
{
    lemma_merged_ends_with_incoming(target, incoming);
}

/// Merging the same chunk twice changes nothing the second time: a replayed
/// snapshot or delta is never duplicated.
pub proof fn law_merge_idempotent(target: Seq<char>, incoming: Seq<char>)
    ensures
        merged(merged(target, incoming), incoming) == merged(target, incoming),
        new_suffix(merged(target, incoming), incoming).len() == 0,
{
    lemma_merged_ends_with_incoming(target, incoming);
    lemma_overlap_full(merged(target, incoming), incoming);
    assert(merged(merged(target, incoming), incoming) =~= merged(target, incoming));
}

/// A snapshot that extends the text so far replaces it: the result is the snapshot,
/// and only the new tail is reported.
pub proof fn law_merge_snapshot_extends(target: Seq<char>, incoming: Seq<char>)
    requires
        starts_with(incoming, target),
    ensures
        merged(target, incoming) == incoming,
        new_suffix(target, incoming) == incoming.skip(target.len() as int),
{
    lemma_overlap_prefix(target, incoming);
    assert(incoming =~= incoming.take(target.len() as int) + incoming.skip(target.len() as int));
}

/// A chunk that shares no prefix with the end of the text is appended whole.
pub proof fn law_merge_disjoint_appends(target: Seq<char>, incoming: Seq<char>)
    requires
        forall|j: int| 0 < j <= incoming.len() ==> !ends_with(target, #[trigger] incoming.take(j)),
    ensures
        merged(target, incoming) == target + incoming,
{
    lemma_overlap_len(target, incoming);
    if overlap_len(target, incoming) > 0 {
        assert(!ends_with(target, incoming.take(overlap_len(target, incoming))));
    }
    assert(incoming.skip(0) == incoming);
}


/// A streamed tool-call fragment lands on the call at its index: the list grows
/// to hold that index (with empty calls in between), the other calls stay as
/// they were, and the call has an id (the streamed one, or `call_<index>`).
pub proof fn law_fragment_reaches_its_call(calls: Seq<PartialCallModel>, d: ChatCompletionToolCallDelta)
    ensures
        apply_delta(calls, d).len() == (if d.index < calls.len() { calls.len() as int } else { d.index + 1 }),
        forall|k: int| 0 <= k < calls.len() && k != d.index ==> #[trigger] apply_delta(calls, d)[k] == calls[k],
        forall|k: int| calls.len() <= k < d.index ==> #[trigger] apply_delta(calls, d)[k] == empty_call(),
        apply_delta(calls, d)[d.index as int].id.len() > 0,
{
    reveal_strlit("call_");
    let padded = pad_calls(calls, d.index as int);
    assert forall|k: int| 0 <= k < calls.len() && k != d.index implies #[trigger] apply_delta(calls, d)[k] == calls[k] by {
        assert(padded[k] == calls[k]);
    }
}

/// Some delta of `ds` is for the call at index `k`.
pub open spec fn touches(ds: Seq<ChatCompletionToolCallDelta>, k: int) -> bool {
    exists|i: int| 0 <= i < ds.len() && (#[trigger] ds[i]).index == k
}

/// No delta of `ds` for the call at index `k` carries a non-empty id.
pub open spec fn carries_no_id(ds: Seq<ChatCompletionToolCallDelta>, k: int) -> bool {
    forall|i: int|
        0 <= i < ds.len() && (#[trigger] ds[i]).index == k ==> (ds[i].id matches Some(t) ==> t@.len() == 0)
}

/// The id of the call at index `k` before any delta (empty past the end).
pub open spec fn start_id(calls: Seq<PartialCallModel>, k: int) -> Seq<char> {
    if 0 <= k < calls.len() {
        calls[k].id
    } else {
        Seq::empty()
    }
}

/// What a whole run of deltas leaves of the calls: the list is as long as the
/// calls before or as the highest index named, whichever is more; calls that
/// no delta names are the old ones or empty; every named call, and every call
/// that had an id, has an id.
pub open spec fn deltas_filled(
    calls: Seq<PartialCallModel>,
    ds: Seq<ChatCompletionToolCallDelta>,
    r: Seq<PartialCallModel>,
) -> bool {
    &&& r.len() >= calls.len()
    &&& forall|i: int| 0 <= i < ds.len() ==> (#[trigger] ds[i]).index < r.len()
    &&& (r.len() == calls.len() || exists|i: int| 0 <= i < ds.len() && (#[trigger] ds[i]).index + 1 == r.len())
    &&& forall|k: int| 0 <= k < calls.len() && !touches(ds, k) ==> #[trigger] r[k] == calls[k]
    &&& forall|k: int| calls.len() <= k < r.len() && !touches(ds, k) ==> #[trigger] r[k] == empty_call()
    &&& forall|i: int| 0 <= i < ds.len() ==> r[(#[trigger] ds[i]).index as int].id.len() > 0
    &&& forall|k: int| 0 <= k < calls.len() && calls[k].id.len() > 0 ==> (#[trigger] r[k]).id.len() > 0
    &&& forall|k: int|
        #![trigger touches(ds, k), carries_no_id(ds, k)]
        touches(ds, k) && carries_no_id(ds, k) && (start_id(calls, k).len() == 0 || start_id(calls, k)
            == fallback_call_id(k as nat)) ==> r[k].id == fallback_call_id(k as nat)
}

/// A whole run of streamed tool-call deltas (see `deltas_filled`): the list
/// grows to the highest index named and no further, the calls no delta names
/// are kept (or empty where the list grew), each named call has an id, and a
/// call that started without one and was sent none is named `call_<index>`.
pub proof fn law_deltas_fill_their_calls(calls: Seq<PartialCallModel>, ds: Seq<ChatCompletionToolCallDelta>)
    ensures
        deltas_filled(calls, ds, apply_deltas(calls, ds)),
    decreases ds.len(),
{
    if ds.len() > 0 {
        let d = ds[0];
        let c1 = apply_delta(calls, d);
        let rest = ds.drop_first();
        law_fragment_reaches_its_call(calls, d);
        law_deltas_fill_their_calls(c1, rest);
        let r = apply_deltas(calls, ds);
        assert(r == apply_deltas(c1, rest));
        assert forall|k: int| #[trigger] touches(rest, k) implies touches(ds, k) by {
            let j = choose|j: int| 0 <= j < rest.len() && (#[trigger] rest[j]).index == k;
            assert(ds[j + 1] == rest[j]);
        }
        assert forall|i: int| 0 <= i < ds.len() implies (#[trigger] ds[i]).index < r.len() by {
            if i > 0 {
                assert(rest[i - 1] == ds[i]);
            }
        }
        if r.len() != calls.len() {
            if r.len() == c1.len() {
                assert(ds[0].index + 1 == r.len());
            } else {
                let j = choose|j: int| 0 <= j < rest.len() && (#[trigger] rest[j]).index + 1 == r.len();
                assert(ds[j + 1] == rest[j]);
            }
        }
        assert forall|k: int| 0 <= k < calls.len() && !touches(ds, k) implies #[trigger] r[k] == calls[k] by {
            assert(ds[0].index != k);
            assert(!touches(rest, k));
        }
        assert forall|k: int| calls.len() <= k < r.len() && !touches(ds, k) implies #[trigger] r[k] == empty_call() by {
            assert(ds[0].index != k);
            assert(!touches(rest, k));
        }
        assert forall|i: int| 0 <= i < ds.len() implies r[(#[trigger] ds[i]).index as int].id.len() > 0 by {
            if i > 0 {
                assert(rest[i - 1] == ds[i]);
            }
        }
        assert forall|k: int| 0 <= k < calls.len() && calls[k].id.len() > 0 implies (#[trigger] r[k]).id.len() > 0 by {
            assert(c1[k].id.len() > 0);
        }
        assert forall|k: int|
            #![trigger touches(ds, k), carries_no_id(ds, k)]
            touches(ds, k) && carries_no_id(ds, k) && (start_id(calls, k).len() == 0 || start_id(calls, k)
                == fallback_call_id(k as nat)) implies r[k].id == fallback_call_id(k as nat) by {
            assert(carries_no_id(rest, k)) by {
                assert forall|i: int| 0 <= i < rest.len() && (#[trigger] rest[i]).index == k implies (rest[i].id matches Some(
                    t,
                ) ==> t@.len() == 0) by {
                    assert(ds[i + 1] == rest[i]);
                }
            }
            if d.index == k {
                let padded = pad_calls(calls, d.index as int);
                assert(padded[k].id == start_id(calls, k));
                assert(d.id matches Some(t) ==> t@.len() == 0);
                assert(c1[k].id == fallback_call_id(k as nat)) by {
                    if let Some(t) = d.id {
                        assert(start_id(calls, k) + t@ == start_id(calls, k));
                    }
                }
                assert(start_id(c1, k) == fallback_call_id(k as nat));
                if touches(rest, k) {
                } else {
                    assert(r[k] == c1[k]);
                }
            } else {
                assert(start_id(c1, k) == start_id(calls, k));
                let i = choose|i: int| 0 <= i < ds.len() && (#[trigger] ds[i]).index == k;
                assert(i != 0);
                assert(rest[i - 1] == ds[i]);
                assert(touches(rest, k));
            }
        }
    }
}

} // verus!
