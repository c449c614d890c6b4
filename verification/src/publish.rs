//! Construction of the broker publish requests a tick emits.
//!
//! Each tick the publish task turns the sweep's measurements into a batch of
//! requests: liveness sentinel topics first, then metric topics, in sensor
//! registration order. Humidity-family metrics go out as `{id}/{name}`;
//! air-quality metrics (`co2`, `voc`) go out under the `{id}/aq` namespace,
//! together with the derived composite index.

use crate::air_quality::{composite_index, spec_composite_index};
use crate::measurement::{value_text, Measurement, MetricValue};
use crate::numerals::{decimal_string, spec_decimal};
use vstd::prelude::*;
use vstd::string::*;

verus! {

/// One outbound publish request: a `/`-delimited UTF-8 topic, a UTF-8 text
/// payload, and its delivery quality.
pub struct PublishRequest {
    pub topic: String,
    pub payload: String,
    /// At-least-once delivery when set; at-most-once otherwise.
    pub at_least_once: bool,
}

/// The mathematical model of one publish request.
#[verifier::ext_equal]
pub struct RequestModel {
    pub topic: Seq<char>,
    pub payload: Seq<char>,
    pub at_least_once: bool,
}

impl View for PublishRequest {
    type V = RequestModel;

    open spec fn view(&self) -> RequestModel {
        RequestModel {
            topic: self.topic@,
            payload: self.payload@,
            at_least_once: self.at_least_once,
        }
    }
}

/// The models of a batch of requests, in order.
pub open spec fn request_models(rs: Seq<PublishRequest>) -> Seq<RequestModel> {
    rs.map_values(|r: PublishRequest| r@)
}

/// Whether a metric belongs to the air-quality sensor family.
pub open spec fn is_aq_metric(name: Seq<char>) -> bool {
    name == "co2"@ || name == "voc"@
}

/// The topic-namespace family a measurement belongs to: `aq` for the
/// air-quality metrics, the metric's own name otherwise.
pub open spec fn family_name(m: Measurement) -> Seq<char> {
    if is_aq_metric(m.name@) {
        "aq"@
    } else {
        m.name@
    }
}

/// The two liveness sentinels of one family: its `online` and `active`
/// topics, each carrying the literal text `true`, at least once.
pub open spec fn liveness_pair(id: Seq<char>, family: Seq<char>) -> Seq<RequestModel> {
    seq![
        RequestModel {
            topic: id + "/"@ + family + "/"@ + "online"@,
            payload: "true"@,
            at_least_once: true,
        },
        RequestModel {
            topic: id + "/"@ + family + "/"@ + "active"@,
            payload: "true"@,
            at_least_once: true,
        },
    ]
}

/// Whether index `i` is the first measurement of its family.
pub open spec fn first_of_family(ms: Seq<Measurement>, i: int) -> bool {
    forall|j: int| 0 <= j < i ==> family_name(#[trigger] ms[j]) != family_name(ms[i])
}

/// The liveness sentinels the tick emits for the measurements from index `i`
/// on: one pair per family, at its first occurrence.
pub open spec fn liveness_models_from(id: Seq<char>, ms: Seq<Measurement>, i: int) -> Seq<
    RequestModel,
>
    decreases ms.len() - i,
{
    if i < 0 || i >= ms.len() {
        Seq::empty()
    } else if first_of_family(ms, i) {
        liveness_pair(id, family_name(ms[i])) + liveness_models_from(id, ms, i + 1)
    } else {
        liveness_models_from(id, ms, i + 1)
    }
}

/// The metric request of one measurement: its value rendered as text, on
/// `{id}/aq/{name}` for an air-quality metric and `{id}/{name}` otherwise,
/// at least once.
pub open spec fn metric_model(id: Seq<char>, m: Measurement) -> RequestModel {
    if is_aq_metric(m.name@) {
        RequestModel {
            topic: id + "/"@ + "aq"@ + "/"@ + m.name@,
            payload: value_text(m.value),
            at_least_once: true,
        }
    } else {
        RequestModel {
            topic: id + "/"@ + m.name@,
            payload: value_text(m.value),
            at_least_once: true,
        }
    }
}

/// The first whole-number reading named `name` at or after index `i`.
pub open spec fn first_whole_from(ms: Seq<Measurement>, name: Seq<char>, i: int) -> Option<u64>
    decreases ms.len() - i,
{
    if i < 0 || i >= ms.len() {
        None
    } else if ms[i].name@ == name && ms[i].value is Whole {
        Some(ms[i].value->Whole_0)
    } else {
        first_whole_from(ms, name, i + 1)
    }
}

/// The first whole-number reading named `name`, if any.
pub open spec fn first_whole(ms: Seq<Measurement>, name: Seq<char>) -> Option<u64> {
    first_whole_from(ms, name, 0)
}

/// Whether index `i` is the first air-quality measurement of the tick.
pub open spec fn first_aq_index(ms: Seq<Measurement>, i: int) -> bool {
    is_aq_metric(ms[i].name@) && forall|j: int|
        0 <= j < i ==> !is_aq_metric((#[trigger] ms[j]).name@)
}

/// The composite air-quality request: the index derived from the two raw
/// readings, rendered as text on `{id}/aq`, at least once.
pub open spec fn composite_model(id: Seq<char>, co2: u64, voc: u64) -> RequestModel {
    RequestModel {
        topic: id + "/"@ + "aq"@,
        payload: spec_decimal(spec_composite_index(co2, voc) as nat),
        at_least_once: true,
    }
}

/// The metric requests the tick emits for the measurements from index `i`
/// on, in order; the derived composite index goes out right before the first
/// air-quality metric, when both raw readings are present.
pub open spec fn metric_models_from(id: Seq<char>, ms: Seq<Measurement>, i: int) -> Seq<
    RequestModel,
>
    decreases ms.len() - i,
{
    if i < 0 || i >= ms.len() {
        Seq::empty()
    } else {
        let here = if first_aq_index(ms, i) && first_whole(ms, "co2"@) is Some && first_whole(
            ms,
            "voc"@,
        ) is Some {
            seq![
                composite_model(id, first_whole(ms, "co2"@)->Some_0, first_whole(ms, "voc"@)->Some_0),
                metric_model(id, ms[i]),
            ]
        } else {
            seq![metric_model(id, ms[i])]
        };
        here + metric_models_from(id, ms, i + 1)
    }
}

/// Everything one tick publishes for the given sweep: liveness sentinels
/// first, then metric topics, both in sensor registration order.
pub open spec fn publish_models(id: Seq<char>, ms: Seq<Measurement>) -> Seq<RequestModel> {
    liveness_models_from(id, ms, 0) + metric_models_from(id, ms, 0)
}

/// Joins the device identity and one topic segment with `/`.
fn topic2(id: &str, a: &str) -> (t: String)
    ensures
        t@ == id@ + "/"@ + a@,
{
    let mut t = id.to_owned();
    t.append("/");
    t.append(a);
    t
}

/// Joins the device identity and two topic segments with `/`.
fn topic3(id: &str, a: &str, b: &str) -> (t: String)
    ensures
        t@ == id@ + "/"@ + a@ + "/"@ + b@,
{
    let mut t = id.to_owned();
    t.append("/");
    t.append(a);
    t.append("/");
    t.append(b);
    t
}

/// Whether the name is one of the air-quality metrics.
fn is_aq_metric_name(name: &String) -> (b: bool)
    ensures
        b == is_aq_metric(name@),
{
    let co2 = String::from_str("co2");
    let voc = String::from_str("voc");
    *name == co2 || *name == voc
}

/// The family string of a measurement.
fn family_string(m: &Measurement) -> (f: String)
    ensures
        f@ == family_name(*m),
{
    if is_aq_metric_name(&m.name) {
        String::from_str("aq")
    } else {
        m.name.clone()
    }
}

/// Whether `s` occurs in `v`.
fn contains_string(v: &Vec<String>, s: &String) -> (b: bool)
    ensures
        b == exists|k: int| 0 <= k < v@.len() && (#[trigger] v@[k])@ == s@,
{
    let mut i: usize = 0;
    while i < v.len()
        invariant
            i <= v@.len(),
            forall|k: int| 0 <= k < i ==> (#[trigger] v@[k])@ != s@,
        decreases v@.len() - i,
    {
        if v[i] == *s {
            return true;
        }
        i += 1;
    }
    false
}

/// The first whole-number reading named `name`, if any.
fn find_first_whole(ms: &Vec<Measurement>, name: &String) -> (r: Option<u64>)
    ensures
        r == first_whole(ms@, name@),
{
    let mut i: usize = 0;
    while i < ms.len()
        invariant
            i <= ms@.len(),
            first_whole(ms@, name@) == first_whole_from(ms@, name@, i as int),
        decreases ms@.len() - i,
    {
        let m = &ms[i];
        if m.name == *name {
            match &m.value {
                MetricValue::Whole(n) => {
                    return Some(*n);
                },
                MetricValue::Text(_) => {},
            }
        }
        i += 1;
    }
    None
}

/// Builds everything one tick publishes from the sweep's measurements:
/// liveness sentinels first (one `online`/`active` pair per sensor family,
/// at its first occurrence, carrying the literal text `true`), then one
/// metric request per measurement in order, with the derived composite
/// air-quality index right before the first air-quality metric when both
/// raw readings are present. Every request is at-least-once. No
/// measurements yield no requests.
pub fn build_publish_requests(id: &str, ms: &Vec<Measurement>) -> (r: Vec<PublishRequest>)
    ensures
        request_models(r@) == publish_models(id@, ms@),
{
    let mut reqs: Vec<PublishRequest> = Vec::new();

    // Liveness sentinels: one pair per family, at its first occurrence.
    let mut seen: Vec<String> = Vec::new();
    let mut i: usize = 0;
    while i < ms.len()
        invariant
            i <= ms@.len(),
            request_models(reqs@) + liveness_models_from(id@, ms@, i as int)
                == liveness_models_from(id@, ms@, 0),
            forall|k: int| 0 <= k < seen@.len() ==> exists|j: int|
                0 <= j < i && family_name(#[trigger] ms@[j]) == (#[trigger] seen@[k])@,
            forall|j: int| 0 <= j < i ==> exists|k: int|
                0 <= k < seen@.len() && (#[trigger] seen@[k])@ == family_name(#[trigger] ms@[j]),
        decreases ms@.len() - i,
    {
        let m = &ms[i];
        let family = family_string(m);
        let already = contains_string(&seen, &family);
        proof {
            if already {
                let k = choose|k: int| 0 <= k < seen@.len() && (#[trigger] seen@[k])@ == family@;
                let j = choose|j: int|
                    0 <= j < i && family_name(#[trigger] ms@[j]) == seen@[k]@;
                assert(family_name(ms@[j]) == family_name(ms@[i as int]));
                assert(!first_of_family(ms@, i as int));
            } else {
                assert forall|j: int| 0 <= j < i implies family_name(#[trigger] ms@[j])
                    != family_name(ms@[i as int]) by {
                    let k = choose|k: int|
                        0 <= k < seen@.len() && (#[trigger] seen@[k])@ == family_name(ms@[j]);
                    assert(seen@[k]@ != family@);
                }
                assert(first_of_family(ms@, i as int));
            }
        }
        if !already {
            let ghost reqs0 = reqs@;
            let online = topic3(id, family.as_str(), "online");
            let active = topic3(id, family.as_str(), "active");
            reqs.push(
                PublishRequest { topic: online, payload: String::from_str("true"), at_least_once: true },
            );
            reqs.push(
                PublishRequest { topic: active, payload: String::from_str("true"), at_least_once: true },
            );
            proof {
                assert(request_models(reqs@) =~= request_models(reqs0) + liveness_pair(
                    id@,
                    family_name(ms@[i as int]),
                ));
                assert(request_models(reqs@) + liveness_models_from(id@, ms@, i as int + 1)
                    =~= request_models(reqs0) + liveness_models_from(id@, ms@, i as int));
            }
        }
        let ghost seen0 = seen@;
        seen.push(family);
        proof {
            assert(seen@[seen@.len() - 1]@ == family_name(ms@[i as int]));
            assert forall|j: int| 0 <= j < i + 1 implies exists|k: int|
                0 <= k < seen@.len() && (#[trigger] seen@[k])@ == family_name(
                #[trigger] ms@[j]) by {
                if j < i {
                    let k = choose|k: int|
                        0 <= k < seen0.len() && (#[trigger] seen0[k])@ == family_name(ms@[j]);
                    assert(seen@[k]@ == family_name(ms@[j]));
                } else {
                    assert(seen@[seen@.len() - 1]@ == family_name(ms@[j]));
                }
            }
        }
        i += 1;
    }
    proof {
        assert(liveness_models_from(id@, ms@, i as int) =~= Seq::empty());
        assert(request_models(reqs@) =~= liveness_models_from(id@, ms@, 0));
    }

    // Metric topics, with the composite index at the first air-quality one.
    let co2_name = String::from_str("co2");
    let voc_name = String::from_str("voc");
    let co2_opt = find_first_whole(ms, &co2_name);
    let voc_opt = find_first_whole(ms, &voc_name);
    let mut aq_seen = false;
    let mut i: usize = 0;
    while i < ms.len()
        invariant
            i <= ms@.len(),
            co2_opt == first_whole(ms@, "co2"@),
            voc_opt == first_whole(ms@, "voc"@),
            aq_seen == exists|j: int| 0 <= j < i && is_aq_metric((#[trigger] ms@[j]).name@),
            request_models(reqs@) + metric_models_from(id@, ms@, i as int)
                == publish_models(id@, ms@),
        decreases ms@.len() - i,
    {
        let ghost reqs0 = reqs@;
        let m = &ms[i];
        let aq = is_aq_metric_name(&m.name);
        proof {
            if aq && !aq_seen {
                assert(first_aq_index(ms@, i as int));
            }
            if !(aq && !aq_seen) {
                assert(!first_aq_index(ms@, i as int));
            }
        }
        if aq && !aq_seen {
            match (co2_opt, voc_opt) {
                (Some(c), Some(v)) => {
                    let index = composite_index(c, v);
                    let topic = topic2(id, "aq");
                    reqs.push(
                        PublishRequest {
                            topic,
                            payload: decimal_string(index as u64),
                            at_least_once: true,
                        },
                    );
                },
                _ => {},
            }
        }
        let topic = if aq {
            topic3(id, "aq", m.name.as_str())
        } else {
            topic2(id, m.name.as_str())
        };
        let payload = m.value.render();
        reqs.push(PublishRequest { topic, payload, at_least_once: true });
        if aq {
            aq_seen = true;
        }
        proof {
            assert(request_models(reqs@) =~= request_models(reqs0) + (
            if first_aq_index(ms@, i as int) && first_whole(ms@, "co2"@) is Some && first_whole(
                ms@,
                "voc"@,
            ) is Some {
                seq![
                    composite_model(
                        id@,
                        first_whole(ms@, "co2"@)->Some_0,
                        first_whole(ms@, "voc"@)->Some_0,
                    ),
                    metric_model(id@, ms@[i as int]),
                ]
            } else {
                seq![metric_model(id@, ms@[i as int])]
            }));
            assert(request_models(reqs@) + metric_models_from(id@, ms@, i as int + 1)
                =~= request_models(reqs0) + metric_models_from(id@, ms@, i as int));
        }
        i += 1;
    }
    proof {
        assert(metric_models_from(id@, ms@, i as int) =~= Seq::empty());
        assert(request_models(reqs@) =~= publish_models(id@, ms@));
    }
    reqs
}

} // verus!
