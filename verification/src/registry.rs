//! The sensor capability and the shared sensor registry.
//!
//! The registry owns every successfully initialized sensor and mediates
//! exclusive access for measurement sweeps: a sweep needs `&mut` access to
//! the whole registry, so no two sweeps can ever interleave individual
//! sensor reads. A member whose read fails is skipped for that sweep and
//! never aborts it.

use crate::measurement::Measurement;
use vstd::prelude::*;

verus! {

/// Why a sensor failed to initialize: the bus or transport was unavailable,
/// or the device-specific negotiation (such as a self-test) failed.
#[derive(Debug)]
pub enum InitError {
    DeviceUnavailable,
    DeviceInitError,
}

/// A failed read cycle: the bus transaction failed or returned malformed
/// data. Fatal only to that sensor's contribution for that sweep.
#[derive(Debug)]
pub struct ReadError;

/// The capability every physical sensor driver implements.
///
/// `initialize` opens and configures the underlying device and must be
/// called at most once per physical device per process lifetime. `measure`
/// performs one read cycle and returns zero or more named metrics; it may
/// advance device-internal state, so repeated calls are not independent.
pub trait Sensor {
    fn initialize() -> (r: Result<Self, InitError>) where Self: Sized;

    fn measure(&mut self) -> (r: Result<Vec<Measurement>, ReadError>);
}

/// The measurements a sweep yields: the concatenation, in registration
/// order, of every successful outcome, with failed members contributing
/// nothing.
pub open spec fn successful_measurements(
    outs: Seq<Result<Vec<Measurement>, ReadError>>,
) -> Seq<Measurement>
    decreases outs.len(),
{
    if outs.len() == 0 {
        Seq::empty()
    } else {
        (match outs[0] {
            Ok(v) => v@,
            Err(_) => Seq::empty(),
        }) + successful_measurements(outs.skip(1))
    }
}

/// A failed member contributes nothing: a sweep in which member `k` fails
/// yields exactly the concatenation of all other members' results, in order.
pub proof fn lemma_failed_sensor_skipped(
    outs: Seq<Result<Vec<Measurement>, ReadError>>,
    k: int,
)
    requires
        0 <= k < outs.len(),
        outs[k] is Err,
    ensures
        successful_measurements(outs) == successful_measurements(outs.remove(k)),
    decreases outs.len(),
{
    if k == 0 {
        assert(outs.remove(0) =~= outs.skip(1));
    } else {
        assert(outs.remove(k).skip(1) =~= outs.skip(1).remove(k - 1));
        lemma_failed_sensor_skipped(outs.skip(1), k - 1);
        assert(successful_measurements(outs) =~= successful_measurements(outs.remove(k)));
    }
}

/// A sweep in which every member fails yields no measurements at all; the
/// bridge stays running but idle.
pub proof fn lemma_all_failed_yields_nothing(outs: Seq<Result<Vec<Measurement>, ReadError>>)
    requires
        forall|i: int| 0 <= i < outs.len() ==> (#[trigger] outs[i]) is Err,
    ensures
        successful_measurements(outs) == Seq::<Measurement>::empty(),
    decreases outs.len(),
{
    if outs.len() > 0 {
        lemma_all_failed_yields_nothing(outs.skip(1));
        assert(successful_measurements(outs) =~= Seq::<Measurement>::empty());
    }
}

/// Concatenates the successful outcomes of a sweep, in order, dropping the
/// failed ones.
pub fn concat_successes(outs: Vec<Result<Vec<Measurement>, ReadError>>) -> (r: Vec<Measurement>)
    ensures
        r@ == successful_measurements(outs@),
{
    let ghost orig = outs@;
    let mut rest = outs;
    let mut r: Vec<Measurement> = Vec::new();
    while rest.len() > 0
        invariant
            successful_measurements(orig) == r@ + successful_measurements(rest@),
        decreases rest@.len(),
    {
        let ghost before = rest@;
        let first = rest.remove(0);
        proof {
            assert(before.remove(0) =~= before.skip(1));
        }
        match first {
            Ok(mut v) => {
                r.append(&mut v);
            },
            Err(_) => {},
        }
        proof {
            assert(successful_measurements(orig) =~= r@ + successful_measurements(rest@));
        }
    }
    proof {
        assert(successful_measurements(rest@) =~= Seq::empty());
        assert(r@ =~= successful_measurements(orig));
    }
    r
}

/// The shared, mutably-exclusive collection of live sensors, in
/// initialization-attempt order.
pub struct SensorRegistry<S: Sensor> {
    sensors: Vec<S>,
}

impl<S: Sensor> View for SensorRegistry<S> {
    type V = Seq<S>;

    closed spec fn view(&self) -> Seq<S> {
        self.sensors@
    }
}

impl<S: Sensor> SensorRegistry<S> {
    /// An empty registry, holding no sensors.
    pub fn new() -> (r: Self)
        ensures
            r@ == Seq::<S>::empty(),
    {
        SensorRegistry { sensors: Vec::new() }
    }

    /// How many sensors are registered.
    pub fn len(&self) -> (n: usize)
        ensures
            n == self@.len(),
    {
        self.sensors.len()
    }

    /// Whether no sensor is registered.
    pub fn is_empty(&self) -> (e: bool)
        ensures
            e == (self@.len() == 0),
    {
        self.sensors.len() == 0
    }

    /// Appends a successfully initialized sensor. Called only during
    /// startup, before any scheduled task begins.
    pub fn register(&mut self, sensor: S)
        ensures
            final(self)@ == old(self)@.push(sensor),
    {
        self.sensors.push(sensor);
    }

    /// Registers the sensor if its initialization succeeded; a failed
    /// initialization leaves the registry unchanged, and that sensor is
    /// simply absent thereafter.
    pub fn register_if_ok(&mut self, outcome: Result<S, InitError>) -> (registered: bool)
        ensures
            (match outcome {
                Ok(s) => registered && final(self)@ == old(self)@.push(s),
                Err(_) => !registered && final(self)@ == old(self)@,
            }),
    {
        match outcome {
            Ok(sensor) => {
                self.sensors.push(sensor);
                true
            },
            Err(_) => false,
        }
    }

    /// One exclusive pass over all members in registration order: calls
    /// `measure` on each and records every outcome. Needs `&mut` access to
    /// the whole registry for its full duration, so sweeps are serialized
    /// and no sweep observes a partially-measured sensor.
    pub fn sweep(&mut self) -> (outs: Vec<Result<Vec<Measurement>, ReadError>>)
        ensures
            outs@.len() == old(self)@.len(),
            final(self)@.len() == old(self)@.len(),
    {
        let mut outs: Vec<Result<Vec<Measurement>, ReadError>> = Vec::new();
        let mut i: usize = 0;
        while i < self.sensors.len()
            invariant
                i <= self.sensors@.len(),
                outs@.len() == i,
                self.sensors@.len() == old(self)@.len(),
            decreases self.sensors@.len() - i,
        {
            let out = self.sensors[i].measure();
            outs.push(out);
            i += 1;
        }
        outs
    }

    /// One full measurement sweep: reads every member in registration order
    /// and returns the concatenation of all successful results. A member
    /// whose read fails is skipped for this sweep and the rest are still
    /// read; a single failing sensor never aborts the sweep.
    pub fn measure_all(&mut self) -> (r: Vec<Measurement>)
        ensures
            final(self)@.len() == old(self)@.len(),
            exists|outs: Seq<Result<Vec<Measurement>, ReadError>>|
                outs.len() == old(self)@.len() && r@ == #[trigger] successful_measurements(outs),
    {
        let outs = self.sweep();
        let ghost outs_view = outs@;
        let r = concat_successes(outs);
        proof {
            assert(outs_view.len() == old(self)@.len() && r@ == successful_measurements(
                outs_view,
            ));
        }
        r
    }
}

} // verus!
