//! The fleet's plan: one identity per worker, each with its own label,
//! device tag and target rate drawn around the configured base rate.

use vstd::prelude::*;
use vstd::utf8::encode_utf8;
use crate::text::{append_bytes, decimal, hex_lower, push_decimal, push_radix};

verus! {

/// Relies on `rand::random::<u64>`: any `u64`; nothing is known of which.
#[verifier::external_body]
fn random_bits() -> (r: u64) {
    rand::random::<u64>()
}

/// Relies on `rand::Rng::gen_range` on the thread's generator: a value of
/// the inclusive range `0..=hi`, which is never empty.
#[verifier::external_body]
fn draw_up_to(hi: u64) -> (r: u64)
    ensures
        r <= hi,
{
    rand::Rng::gen_range(&mut rand::thread_rng(), 0..=hi)
}

/// What each worker's label starts with, before its index.
pub const LABEL_PREFIX: &'static str = "arduino";

/// What each device tag starts with, before its hexadecimal number.
pub const DEVICE_PREFIX: &'static str = "DUCOID";

/// The label of worker `index`: `arduino` and the index in decimal.
pub open spec fn label_of(index: nat) -> Seq<u8> {
    encode_utf8(LABEL_PREFIX@) + decimal(index)
}

/// The device tag built from `bits`: `DUCOID` and the number in lower-case
/// hexadecimal.
pub open spec fn device_tag_of(bits: nat) -> Seq<u8> {
    encode_utf8(DEVICE_PREFIX@) + hex_lower(bits)
}

/// The lowest and highest target rates that `base` and `range` allow:
/// `base - range / 2` and `base + range / 2`, in whole rate units.
pub open spec fn lowest_rate(base: nat, range: nat) -> int {
    base - range / 2
}

pub open spec fn highest_rate(base: nat, range: nat) -> int {
    (base + range / 2) as int
}

/// Who a worker is to the server, and how fast it pretends to hash.
#[derive(Debug)]
pub struct WorkerIdentity {
    /// ASCII text, sent as the worker's name.
    pub label: Vec<u8>,
    /// ASCII text, sent as the device the worker stands for.
    pub device_tag: Vec<u8>,
    /// In hundredths of a hash per second; never zero.
    pub target_rate: u64,
}

/// The fleet's configuration: how many workers, the base target rate and the
/// width of the jitter around it (both in hundredths of a hash per second),
/// and the account they all mine for.
pub struct FleetConfig {
    pub workers: usize,
    pub base_rate: u64,
    pub jitter_range: u64,
    pub username: String,
    pub mining_key: String,
}

/// Why a fleet could not be planned.
#[derive(Clone, Copy, Debug, PartialEq, Eq, Structural)]
pub enum FleetError {
    /// The base rate is not above half the jitter range, so a worker could
    /// get a target rate of zero or below.
    RateTooLow,
    /// The base rate plus half the jitter range does not fit in `u64`.
    RateTooHigh,
}

/// Whether `base` and `range` give every worker a target rate above zero
/// that fits in `u64`.
pub open spec fn rates_fit(base: nat, range: nat) -> bool {
    &&& lowest_rate(base, range) > 0
    &&& highest_rate(base, range) <= u64::MAX
}

/// The label of worker `index`.
pub fn worker_label(index: u64) -> (r: Vec<u8>)
    ensures
        r@ == label_of(index as nat),
{
    let mut out: Vec<u8> = Vec::new();
    append_bytes(&mut out, LABEL_PREFIX.as_bytes());
    push_decimal(&mut out, index);
    out
}

/// The device tag built from `bits`.
pub fn device_tag(bits: u64) -> (r: Vec<u8>)
    ensures
        r@ == device_tag_of(bits as nat),
{
    let mut out: Vec<u8> = Vec::new();
    append_bytes(&mut out, DEVICE_PREFIX.as_bytes());
    push_radix(&mut out, bits, 16);
    out
}

/// The target rate for a draw of `draw` from `0..=2 * (range / 2)`: the
/// lowest rate plus the draw.
pub fn jittered_rate(base: u64, range: u64, draw: u64) -> (r: u64)
    requires
        rates_fit(base as nat, range as nat),
        draw <= 2 * (range / 2),
    ensures
        r as int == lowest_rate(base as nat, range as nat) + draw,
        lowest_rate(base as nat, range as nat) <= r <= highest_rate(base as nat, range as nat),
{
    base - range / 2 + draw
}

/// The identity of worker `index`, given the rate draw and the bits of its
/// device tag.
pub fn worker_identity(index: u64, base: u64, range: u64, draw: u64, bits: u64) -> (r: WorkerIdentity)
    requires
        rates_fit(base as nat, range as nat),
        draw <= 2 * (range / 2),
    ensures
        r.label@ == label_of(index as nat),
        r.device_tag@ == device_tag_of(bits as nat),
        r.target_rate as int == lowest_rate(base as nat, range as nat) + draw,
{
    WorkerIdentity {
        label: worker_label(index),
        device_tag: device_tag(bits),
        target_rate: jittered_rate(base, range, draw),
    }
}

/// A fresh identity for worker `index`: its rate drawn at random within half
/// the jitter range of the base, its device tag from a random number.
pub fn new_worker(index: u64, base: u64, range: u64) -> (r: WorkerIdentity)
    requires
        rates_fit(base as nat, range as nat),
    ensures
        r.label@ == label_of(index as nat),
        exists|bits: u64| r.device_tag@ == device_tag_of(bits as nat),
        lowest_rate(base as nat, range as nat) <= r.target_rate <= highest_rate(base as nat, range as nat),
{
    let draw = draw_up_to(2 * (range / 2));
    let bits: u64 = random_bits();
    worker_identity(index, base, range, draw, bits)
}

/// Plans the fleet: one identity per worker, in order, worker `i` labelled
/// `arduino{i}`, each target rate within half the jitter range of the base.
/// Fails when those rates would not all be above zero and fit in `u64`.
pub fn plan_fleet(config: &FleetConfig) -> (r: Result<Vec<WorkerIdentity>, FleetError>)
    ensures
        r is Ok <==> rates_fit(config.base_rate as nat, config.jitter_range as nat),
        r matches Err(e) ==> (e == FleetError::RateTooLow <==> lowest_rate(config.base_rate as nat, config.jitter_range as nat) <= 0),
        r matches Ok(ws) ==> {
            &&& ws@.len() == config.workers
            &&& forall|i: int| 0 <= i < ws@.len() ==> {
                &&& (#[trigger] ws@[i]).label@ == label_of(i as nat)
                &&& exists|bits: u64| ws@[i].device_tag@ == device_tag_of(bits as nat)
                &&& lowest_rate(config.base_rate as nat, config.jitter_range as nat) <= ws@[i].target_rate
                &&& ws@[i].target_rate <= highest_rate(config.base_rate as nat, config.jitter_range as nat)
            }
        },
{
    let base = config.base_rate;
    let range = config.jitter_range;
    if base <= range / 2 {
        return Err(FleetError::RateTooLow);
    }
    if base > u64::MAX - range / 2 {
        return Err(FleetError::RateTooHigh);
    }
    let mut ws: Vec<WorkerIdentity> = Vec::new();
    let mut i: usize = 0;
    while i < config.workers
        invariant
            i <= config.workers,
            base == config.base_rate,
            range == config.jitter_range,
            rates_fit(base as nat, range as nat),
            ws@.len() == i,
            forall|k: int| 0 <= k < i ==> {
                &&& (#[trigger] ws@[k]).label@ == label_of(k as nat)
                &&& exists|bits: u64| ws@[k].device_tag@ == device_tag_of(bits as nat)
                &&& lowest_rate(base as nat, range as nat) <= ws@[k].target_rate
                &&& ws@[k].target_rate <= highest_rate(base as nat, range as nat)
            },
        decreases config.workers - i,
    {
        let w = new_worker(i as u64, base, range);
        ws.push(w);
        i = i + 1;
    }
    Ok(ws)
}

} // verus!
