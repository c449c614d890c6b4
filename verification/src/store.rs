//! Construction of the aggregate write point the store-write task submits
//! once per tick: stamped with the wall clock, tagged with the device
//! identity, one field per measurement name.

use crate::measurement::Measurement;
use vstd::prelude::*;

verus! {

/// One aggregate point written to the time-series store: the wall-clock
/// stamp of the tick, the one `id` tag, and one field per metric name.
pub struct WritePoint {
    /// Milliseconds since the Unix epoch at the tick.
    pub timestamp_ms: i64,
    /// The process-wide device identity, the point's one tag.
    pub device_id: String,
    /// The fields, one per metric name.
    pub fields: Vec<Measurement>,
}

/// The fields a sequence of measurements yields: one per name, the last
/// value winning when two sensors report the same name, kept in the order
/// of each name's last occurrence. Duplicate names are an edge case a sweep
/// normally never produces.
pub open spec fn last_wins(ms: Seq<Measurement>) -> Seq<Measurement>
    decreases ms.len(),
{
    if ms.len() == 0 {
        Seq::empty()
    } else if exists|j: int| 1 <= j < ms.len() && (#[trigger] ms[j].name)@ == ms[0].name@ {
        last_wins(ms.skip(1))
    } else {
        seq![ms[0]] + last_wins(ms.skip(1))
    }
}

/// Whether any measurement in `ms` carries the name `name`.
pub fn contains_name(ms: &Vec<Measurement>, name: &String) -> (b: bool)
    ensures
        b == exists|j: int| 0 <= j < ms@.len() && (#[trigger] ms@[j].name)@ == name@,
{
    let mut i: usize = 0;
    while i < ms.len()
        invariant
            i <= ms@.len(),
            forall|k: int| 0 <= k < i ==> (#[trigger] ms@[k].name)@ != name@,
        decreases ms@.len() - i,
    {
        if ms[i].name == *name {
            return true;
        }
        i += 1;
    }
    false
}

/// Builds the one aggregate write point for a tick from the sweep's
/// measurements: the given stamp, the one device-identity tag, and one
/// field per metric name, last value winning on a duplicate name.
pub fn build_write_point(
    timestamp_ms: i64,
    device_id: String,
    measurements: Vec<Measurement>,
) -> (p: WritePoint)
    ensures
        p.timestamp_ms == timestamp_ms,
        p.device_id == device_id,
        p.fields@ == last_wins(measurements@),
{
    let ghost orig = measurements@;
    let mut rest = measurements;
    let mut fields: Vec<Measurement> = Vec::new();
    while rest.len() > 0
        invariant
            last_wins(orig) == fields@ + last_wins(rest@),
        decreases rest@.len(),
    {
        let ghost before = rest@;
        let m = rest.remove(0);
        proof {
            assert(before.remove(0) =~= before.skip(1));
        }
        let recurs = contains_name(&rest, &m.name);
        proof {
            assert(recurs == exists|j: int|
                1 <= j < before.len() && (#[trigger] before[j].name)@ == before[0].name@) by {
                if recurs {
                    let j = choose|j: int|
                        0 <= j < rest@.len() && (#[trigger] rest@[j].name)@ == m.name@;
                    assert(before[j + 1].name@ == before[0].name@);
                } else {
                    if exists|j: int|
                        1 <= j < before.len() && (#[trigger] before[j].name)@ == before[0].name@ {
                        let j = choose|j: int|
                            1 <= j < before.len() && (#[trigger] before[j].name)@
                                == before[0].name@;
                        assert(rest@[j - 1].name@ == m.name@);
                    }
                }
            }
        }
        if !recurs {
            fields.push(m);
            proof {
                assert(fields@ =~= fields@.subrange(0, fields@.len() - 1).push(m));
                assert(fields@.subrange(0, fields@.len() - 1) + (seq![m] + last_wins(rest@))
                    =~= fields@ + last_wins(rest@));
            }
        }
        proof {
            assert(last_wins(orig) =~= fields@ + last_wins(rest@));
        }
    }
    proof {
        assert(last_wins(rest@) =~= Seq::empty());
        assert(fields@ =~= last_wins(orig));
    }
    WritePoint { timestamp_ms, device_id, fields }
}

/// No name survives `last_wins` that was absent from the input.
proof fn lemma_last_wins_name_absent(ms: Seq<Measurement>, n: Seq<char>)
    requires
        forall|j: int| 0 <= j < ms.len() ==> (#[trigger] ms[j].name)@ != n,
    ensures
        forall|k: int| 0 <= k < last_wins(ms).len() ==> (#[trigger] last_wins(ms)[k].name)@ != n,
    decreases ms.len(),
{
    if ms.len() > 0 {
        assert(forall|j: int| 0 <= j < ms.skip(1).len() ==> (#[trigger] ms.skip(1)[j].name)@ != n);
        lemma_last_wins_name_absent(ms.skip(1), n);
    }
}

/// The fields of a write point carry pairwise distinct names: one field per
/// measurement name, whatever duplicates the sweep produced.
pub proof fn lemma_last_wins_distinct_names(ms: Seq<Measurement>)
    ensures
        forall|i: int, j: int|
            0 <= i < j < last_wins(ms).len() ==> (#[trigger] last_wins(ms)[i].name)@ != (
            #[trigger] last_wins(ms)[j].name)@,
    decreases ms.len(),
{
    if ms.len() > 0 {
        lemma_last_wins_distinct_names(ms.skip(1));
        if !(exists|j: int| 1 <= j < ms.len() && (#[trigger] ms[j].name)@ == ms[0].name@) {
            assert(forall|j: int|
                0 <= j < ms.skip(1).len() ==> (#[trigger] ms.skip(1)[j].name)@ != ms[0].name@);
            lemma_last_wins_name_absent(ms.skip(1), ms[0].name@);
            assert(forall|k: int|
                0 <= k < last_wins(ms.skip(1)).len() ==> (#[trigger] last_wins(ms)[k + 1].name)@
                    == last_wins(ms.skip(1))[k].name@);
        }
    }
}

/// With pairwise distinct names — what a sweep of well-behaved sensors
/// produces — every measurement becomes a field, unchanged and in order.
pub proof fn lemma_last_wins_identity(ms: Seq<Measurement>)
    requires
        forall|i: int, j: int|
            0 <= i < j < ms.len() ==> (#[trigger] ms[i].name)@ != (#[trigger] ms[j].name)@,
    ensures
        last_wins(ms) == ms,
    decreases ms.len(),
{
    if ms.len() > 0 {
        assert(forall|i: int, j: int|
            0 <= i < j < ms.skip(1).len() ==> (#[trigger] ms.skip(1)[i].name)@ != (
            #[trigger] ms.skip(1)[j].name)@);
        lemma_last_wins_identity(ms.skip(1));
        assert(!(exists|j: int| 1 <= j < ms.len() && (#[trigger] ms[j].name)@ == ms[0].name@));
        assert(seq![ms[0]] + ms.skip(1) =~= ms);
    }
}

/// Relies on `chrono::Utc::now` for the wall clock: it returns the current
/// moment, which is at or after the Unix epoch whenever the call returns,
/// so its millisecond timestamp is non-negative.
#[verifier::external_body]
fn current_timestamp_ms() -> (t: i64)
    ensures
        t >= 0,
{
    chrono::Utc::now().timestamp_millis()
}

/// Builds the tick's write point stamped with the wall clock now: the one
/// device-identity tag and one field per metric name, last value winning on
/// a duplicate name. Only the stamp depends on the clock.
pub fn write_point_now(device_id: String, measurements: Vec<Measurement>) -> (p: WritePoint)
    ensures
        p.timestamp_ms >= 0,
        p.device_id == device_id,
        p.fields@ == last_wins(measurements@),
{
    let timestamp_ms = current_timestamp_ms();
    build_write_point(timestamp_ms, device_id, measurements)
}

} // verus!
