//! Core of a device-resident telemetry bridge: sensors attached to a shared
//! hardware bus are polled by periodic tasks, their readings are classified
//! and fanned out to a message broker and a time-series store, tagged by a
//! stable device identity.
//!
//! This crate holds the verified core: the measurement model, the air-quality
//! classification, the sensor registry with its sweep policy, and the
//! construction of broker publish requests and store write points. The
//! unverified rim (hardware drivers, network transport, timers) lives outside
//! and hands this crate plain values.

pub mod air_quality;
pub mod measurement;
pub mod numerals;
pub mod publish;
pub mod registry;
pub mod store;

use vstd::prelude::*;

verus! {

use crate::measurement::Measurement;
use crate::publish::{publish_models, RequestModel};
use crate::registry::{successful_measurements, ReadError};
use crate::store::last_wins;

/// A bridge whose registry is empty stays running but idle: a sweep of no
/// sensors yields no measurements, no measurements yield no publish
/// requests, and the tick's write point carries no fields.
pub proof fn lemma_empty_registry_idle(id: Seq<char>)
    ensures
        successful_measurements(Seq::<Result<Vec<Measurement>, ReadError>>::empty())
            == Seq::<Measurement>::empty(),
        publish_models(id, Seq::<Measurement>::empty()) == Seq::<RequestModel>::empty(),
        last_wins(Seq::<Measurement>::empty()) == Seq::<Measurement>::empty(),
{
    assert(publish_models(id, Seq::<Measurement>::empty()) =~= Seq::<RequestModel>::empty());
}

} // verus!
