//! The host side of the accelerator backend: the sizes of the buffers that
//! live in device memory, the per-dispatch configuration, and the decoding of
//! what is read back after each step.
//!
//! Device buffers hold 4-byte words. A neuron record is six words, in the
//! order `decay_rate, sensitivity, v_reset, u_reset, v, u`. The spike buffer
//! holds one word per neuron for each history slot, slot after slot; a word
//! other than zero means that the neuron spiked in that step.
use vstd::prelude::*;

use crate::config::SimConfig;

verus! {

/// Bytes in one device word.
pub const WORD_BYTES: usize = 4;

/// Words in one neuron record.
pub const NEURON_RECORD_WORDS: usize = 6;

/// Bytes in one neuron record.
pub const NEURON_RECORD_BYTES: usize = NEURON_RECORD_WORDS * WORD_BYTES;

/// The word of a neuron record that holds the membrane potential `v`.
pub const VOLTAGE_WORD: usize = 4;

/// Words in the per-dispatch configuration.
pub const CONFIG_WORDS: usize = 3;

/// Whether a population of `neurons` with `slots` history slots can be
/// described to the device: the counts are 32-bit words and every buffer
/// size is a 64-bit byte count.
pub open spec fn fits_device(neurons: int, slots: int) -> bool {
    &&& neurons <= u32::MAX
    &&& slots <= u32::MAX
    &&& neurons * neurons * 4 <= u64::MAX
    &&& slots * neurons * 4 <= u64::MAX
}

/// Whether the 4-byte word at word index `w` of `bytes` is other than zero.
/// A word is zero exactly when its four bytes are, whatever the byte order.
pub open spec fn word_is_set(bytes: Seq<u8>, w: int) -> bool {
    bytes[4 * w] != 0 || bytes[4 * w + 1] != 0 || bytes[4 * w + 2] != 0 || bytes[4 * w + 3] != 0
}

/// Why a configuration cannot be laid out in device memory.
#[derive(Clone, Copy, Debug, PartialEq, Eq, Structural)]
pub enum LayoutError {
    /// A count or a buffer size does not fit the device's integer widths.
    TooLarge,
}

/// The configuration that one dispatch of the kernel reads: the population
/// size, the number of history slots and the slot of the current step.
#[derive(Clone, Copy, Debug, PartialEq, Eq, Structural)]
pub struct DispatchConfig {
    pub neurons: u32,
    pub total_time_steps: u32,
    pub time_step: u32,
}

impl DispatchConfig {
    /// The configuration as the device reads it, one word per field in
    /// declaration order.
    pub fn words(&self) -> (r: Vec<u32>)
        ensures
            r@ == seq![self.neurons, self.total_time_steps, self.time_step],
    {
        let r = vec![self.neurons, self.total_time_steps, self.time_step];
        assert(r@ =~= seq![self.neurons, self.total_time_steps, self.time_step]);
        r
    }
}

/// The shape of the device buffers for one run.
#[derive(Clone, Copy, Debug, PartialEq, Eq, Structural)]
pub struct DeviceLayout {
    /// The number of neurons.
    pub neurons: u32,
    /// The number of history slots in the spike buffer.
    pub slots: u32,
}

impl DeviceLayout {
    /// The population and the history are not empty and fit the device.
    pub open spec fn is_valid(&self) -> bool {
        &&& self.neurons > 0
        &&& self.slots > 0
        &&& fits_device(self.neurons as int, self.slots as int)
    }

    /// The layout for a run of `config`, or `TooLarge` where its population or
    /// history cannot be described to the device.
    pub fn new(config: &SimConfig) -> (r: Result<DeviceLayout, LayoutError>)
        requires
            config.is_valid(),
        ensures
            r is Ok <==> fits_device(
                config.excitatory + config.inhibitory,
                config.buffer_size as int,
            ),
            r is Err ==> r == Err::<DeviceLayout, LayoutError>(LayoutError::TooLarge),
            r matches Ok(l) ==> l.neurons == config.excitatory + config.inhibitory
                && l.slots == config.buffer_size && l.is_valid(),
    {
        let n = config.population_size();
        let slots = config.buffer_size;
        if n > u32::MAX as usize || slots > u32::MAX as usize {
            return Err(LayoutError::TooLarge);
        }
        let n64 = n as u64;
        let s64 = slots as u64;
        assert(n64 * n64 <= u64::MAX) by (nonlinear_arith)
            requires
                n64 <= u32::MAX,
        ;
        assert(s64 * n64 <= u64::MAX) by (nonlinear_arith)
            requires
                n64 <= u32::MAX,
                s64 <= u32::MAX,
        ;
        if n64 * n64 > u64::MAX / 4 || s64 * n64 > u64::MAX / 4 {
            return Err(LayoutError::TooLarge);
        }
        Ok(DeviceLayout { neurons: n as u32, slots: slots as u32 })
    }

    /// The configuration of the dispatch for the step recorded in slot `t`.
    pub fn dispatch_config(&self, t: usize) -> (r: DispatchConfig)
        requires
            self.is_valid(),
            t < self.slots,
        ensures
            r == (DispatchConfig {
                neurons: self.neurons,
                total_time_steps: self.slots,
                time_step: t as u32,
            }),
    {
        DispatchConfig { neurons: self.neurons, total_time_steps: self.slots, time_step: t as u32 }
    }

    /// Bytes of the neuron buffer: one record per neuron.
    pub fn neuron_buffer_bytes(&self) -> (r: u64)
        requires
            self.is_valid(),
        ensures
            r == self.neurons * NEURON_RECORD_BYTES,
    {
        self.neurons as u64 * NEURON_RECORD_BYTES as u64
    }

    /// Bytes of the connectivity buffer: one word per pair of neurons.
    pub fn connection_buffer_bytes(&self) -> (r: u64)
        requires
            self.is_valid(),
        ensures
            r == self.neurons * self.neurons * WORD_BYTES,
    {
        self.neurons as u64 * self.neurons as u64 * WORD_BYTES as u64
    }

    /// Bytes of the spike buffer: one word per neuron in every slot.
    pub fn spike_buffer_bytes(&self) -> (r: u64)
        requires
            self.is_valid(),
        ensures
            r == self.slots * self.neurons * WORD_BYTES,
    {
        self.slots as u64 * self.neurons as u64 * WORD_BYTES as u64
    }

    /// Bytes of one step's per-neuron vector: the stimulus uploaded before a
    /// dispatch, or one slot of the spike buffer.
    pub fn neuron_vector_bytes(&self) -> (r: u64)
        requires
            self.is_valid(),
        ensures
            r == self.neurons * WORD_BYTES,
    {
        self.neurons as u64 * WORD_BYTES as u64
    }

    /// Bytes of the per-dispatch configuration.
    pub fn config_bytes(&self) -> (r: u64)
        ensures
            r == CONFIG_WORDS * WORD_BYTES,
    {
        (CONFIG_WORDS * WORD_BYTES) as u64
    }

    /// The byte offset in the spike buffer of slot `t`.
    pub fn spike_slot_offset(&self, t: usize) -> (r: u64)
        requires
            self.is_valid(),
            t < self.slots,
        ensures
            r == t * self.neurons * WORD_BYTES,
            r + self.neurons * WORD_BYTES <= self.slots * self.neurons * WORD_BYTES,
    {
        let n = self.neurons as u64;
        let t64 = t as u64;
        assert(t64 * n * 4 + n * 4 <= (self.slots as u64) * n * 4) by (nonlinear_arith)
            requires
                t64 < self.slots,
        ;
        t64 * n * WORD_BYTES as u64
    }

    /// The spike vector of the step recorded in slot `t`, read from a copy of
    /// the whole spike buffer.
    pub fn decode_spike_slot(&self, spike_buffer: &Vec<u8>, t: usize) -> (r: Vec<bool>)
        requires
            self.is_valid(),
            t < self.slots,
            spike_buffer@.len() == self.slots * self.neurons * WORD_BYTES,
        ensures
            r@.len() == self.neurons,
            forall|j: int|
                0 <= j < self.neurons ==> #[trigger] r@[j] == word_is_set(
                    spike_buffer@,
                    t * self.neurons + j,
                ),
    {
        let n = self.neurons as usize;
        let len = spike_buffer.len();
        assert(t * n + n <= self.slots * n) by (nonlinear_arith)
            requires
                t < self.slots,
        ;
        assert(self.slots * n <= self.slots * n * 4) by (nonlinear_arith);
        let first = t * n;
        let mut r: Vec<bool> = Vec::with_capacity(n);
        let mut j: usize = 0;
        while j < n
            invariant
                n == self.neurons,
                first == t * n,
                first + n <= self.slots * n,
                len == spike_buffer@.len(),
                len == self.slots * n * 4,
                self.slots * n <= len,
                j <= n,
                r@.len() == j,
                forall|k: int| 0 <= k < j ==> #[trigger] r@[k] == word_is_set(spike_buffer@, first + k),
            decreases n - j,
        {
            let at = (first + j) * WORD_BYTES;
            assert(at + 4 <= len) by (nonlinear_arith)
                requires
                    at == (first + j) * 4,
                    first + j < self.slots * n,
                    len == self.slots * n * 4,
            ;
            let set = spike_buffer[at] != 0 || spike_buffer[at + 1] != 0 || spike_buffer[at + 2]
                != 0 || spike_buffer[at + 3] != 0;
            r.push(set);
            j = j + 1;
        }
        r
    }
}

/// The four bytes of the membrane potential in a copy of a neuron record, or
/// `None` where the copy is shorter than a record.
pub fn voltage_bytes(record: &Vec<u8>) -> (r: Option<Vec<u8>>)
    ensures
        r is Some <==> record@.len() >= NEURON_RECORD_BYTES,
        r matches Some(b) ==> b@ == record@.subrange(
            (VOLTAGE_WORD * WORD_BYTES) as int,
            (VOLTAGE_WORD * WORD_BYTES + WORD_BYTES) as int,
        ),
{
    if record.len() < NEURON_RECORD_BYTES {
        return None;
    }
    let start = VOLTAGE_WORD * WORD_BYTES;
    let mut b: Vec<u8> = Vec::with_capacity(WORD_BYTES);
    let mut i: usize = 0;
    while i < WORD_BYTES
        invariant
            start == 16,
            record@.len() >= 24,
            i <= 4,
            b@ == record@.subrange(start as int, start + i),
        decreases 4 - i,
    {
        b.push(record[start + i]);
        i = i + 1;
        assert(b@ =~= record@.subrange(start as int, start + i));
    }
    Some(b)
}

} // verus!
