//! The usage metrics of a node: what its host and its accelerator devices report,
//! with the serving-engine statistics merged in.
//!
//! Nothing here touches hardware. The caller reads the host and the devices and hands
//! over what it read; the functions of this module turn that into the record that the
//! node publishes. A host value that cannot be had is zero. A device that cannot be
//! read fails the whole record: a record that lists some devices and not others, or
//! that claims no devices where the driver could not be asked, would mislead.

use crate::binary64::ZERO;
use crate::serving::{
    gathered, gave_no_value, lemma_all_failed_gathers_zero, MetricsResponse, NamedReply,
    PrometheusMetricsError,
};
use vstd::prelude::*;

verus! {

/// Why the usage metrics of a node could not be computed.
#[derive(Debug, PartialEq, Eq)]
pub enum NodeMetricsError {
    /// The device-management library could not be initialised, or a device could not
    /// be read. Holds the library's description of the failure.
    NvmlError(String),
    /// The number of CPUs does not fit in 32 bits.
    TryFromIntError,
    /// The serving-engine statistics could not be read.
    PrometheusMetricsError(PrometheusMetricsError),
    /// The metrics endpoint answered a query, but not with success. Holds the message
    /// `Query failed with status: ` followed by the status.
    PrometheusError(String),
    /// A request to the metrics endpoint failed. Holds the description of the failure.
    RequestError(String),
}

/// The content of a `NodeMetricsError`.
pub enum NodeMetricsErrorView {
    NvmlError(Seq<char>),
    TryFromIntError,
    PrometheusMetricsError(Seq<char>),
    PrometheusError(Seq<char>),
    RequestError(Seq<char>),
}

impl View for NodeMetricsError {
    type V = NodeMetricsErrorView;

    open spec fn view(&self) -> NodeMetricsErrorView {
        match self {
            NodeMetricsError::NvmlError(reason) => NodeMetricsErrorView::NvmlError(reason@),
            NodeMetricsError::TryFromIntError => NodeMetricsErrorView::TryFromIntError,
            NodeMetricsError::PrometheusMetricsError(PrometheusMetricsError::ParseError(reason)) =>
                NodeMetricsErrorView::PrometheusMetricsError(reason@),
            NodeMetricsError::PrometheusError(message) => NodeMetricsErrorView::PrometheusError(
                message@,
            ),
            NodeMetricsError::RequestError(reason) => NodeMetricsErrorView::RequestError(reason@),
        }
    }
}

/// What the device-management library reports of one accelerator device.
#[derive(Debug, Clone, Copy, PartialEq, Eq, Structural)]
pub struct DeviceReading {
    /// Percentage of time over the last sample period in which a kernel was executing.
    pub utilization_gpu: u32,
    /// Percentage of time over the last sample period in which device memory was read
    /// or written.
    pub utilization_memory: u32,
    /// Device memory in use, in bytes.
    pub memory_used: u64,
    /// Device memory installed, in bytes.
    pub memory_total: u64,
    /// Device memory not in use, in bytes.
    pub memory_free: u64,
    /// Temperature of the device's die, in degrees Celsius.
    pub temperature: u32,
    /// Power draw, in milliwatts.
    pub power_usage: u32,
    /// The power limit that the management software set, in milliwatts.
    pub power_management_limit: u32,
    /// The power limit in force, in milliwatts.
    pub enforced_power_limit: u32,
    /// The highest temperature at which the device operates, in degrees Celsius.
    pub max_temperature: u32,
    /// Energy used since the driver was loaded, in millijoules.
    pub total_energy_consumption: u64,
}

/// The usage metrics of one accelerator device. The serving-engine statistics are
/// those of the node, repeated in the entry of every device.
#[derive(Debug, Clone, Copy, PartialEq, Eq, Structural)]
pub struct GpuMetrics {
    /// The amount of memory used by the device.
    pub memory_used: u64,
    /// The total amount of memory on the device.
    pub memory_total: u64,
    /// The amount of free memory on the device.
    pub memory_free: u64,
    /// The percentage of time the device was reading or writing.
    pub percentage_time_read_write: u32,
    /// The percentage of time the device was executing.
    pub percentage_time_gpu_execution: u32,
    /// The temperature of the device in degrees Celsius.
    pub temperature: u32,
    /// The power usage of the device in milliwatts.
    pub power_usage: u32,
    /// Maximum power limit in milliwatts.
    pub max_power_limit: u32,
    /// Default power limit in milliwatts.
    pub default_power_limit: u32,
    /// Maximum operating temperature in degrees Celsius.
    pub max_temperature: u32,
    /// Energy used since the driver was loaded, in millijoules.
    pub energy_consumption: u64,
    /// Chat completion latency, as the bit pattern of a double-precision number.
    pub chat_completion_latency: u64,
    /// Time to first token, as the bit pattern of a double-precision number.
    pub time_to_first_token: u64,
    /// Inter token generation time, as the bit pattern of a double-precision number.
    pub inter_token_generation_time: u64,
    /// Decoding time, as the bit pattern of a double-precision number.
    pub decoding_time: u64,
    /// Image generation latency, as the bit pattern of a double-precision number.
    pub image_generation_latency: u64,
    /// Text embeddings latency, as the bit pattern of a double-precision number.
    pub text_embeddings_latency: u64,
    /// Total requests.
    pub total_requests: u64,
    /// Failed requests.
    pub failed_requests: u64,
}

impl GpuMetrics {
    /// The entry in which every field is zero.
    pub open spec fn zero() -> GpuMetrics {
        GpuMetrics {
            memory_used: 0,
            memory_total: 0,
            memory_free: 0,
            percentage_time_read_write: 0,
            percentage_time_gpu_execution: 0,
            temperature: 0,
            power_usage: 0,
            max_power_limit: 0,
            default_power_limit: 0,
            max_temperature: 0,
            energy_consumption: 0,
            chat_completion_latency: ZERO,
            time_to_first_token: ZERO,
            inter_token_generation_time: ZERO,
            decoding_time: ZERO,
            image_generation_latency: ZERO,
            text_embeddings_latency: ZERO,
            total_requests: 0,
            failed_requests: 0,
        }
    }

    /// The entry for a device of which `reading` was taken, before any serving-engine
    /// statistics are merged in: those are zero.
    pub open spec fn spec_from_reading(reading: DeviceReading) -> GpuMetrics {
        GpuMetrics {
            memory_used: reading.memory_used,
            memory_total: reading.memory_total,
            memory_free: reading.memory_free,
            percentage_time_read_write: reading.utilization_memory,
            percentage_time_gpu_execution: reading.utilization_gpu,
            temperature: reading.temperature,
            power_usage: reading.power_usage,
            max_power_limit: reading.power_management_limit,
            default_power_limit: reading.enforced_power_limit,
            max_temperature: reading.max_temperature,
            energy_consumption: reading.total_energy_consumption,
            ..GpuMetrics::zero()
        }
    }

    /// The entry with its serving-engine statistics replaced by `statistics`.
    pub open spec fn spec_with_statistics(self, statistics: MetricsResponse) -> GpuMetrics {
        GpuMetrics {
            chat_completion_latency: statistics.chat_latency,
            time_to_first_token: statistics.first_token_time,
            inter_token_generation_time: statistics.inter_token_time,
            decoding_time: statistics.decoding_time,
            image_generation_latency: statistics.image_gen_latency,
            text_embeddings_latency: statistics.text_emb_latency,
            total_requests: statistics.total_requests,
            failed_requests: statistics.failed_requests,
            ..self
        }
    }

    /// The serving-engine statistics that the entry holds.
    pub open spec fn statistics(self) -> MetricsResponse {
        MetricsResponse {
            chat_latency: self.chat_completion_latency,
            first_token_time: self.time_to_first_token,
            inter_token_time: self.inter_token_generation_time,
            decoding_time: self.decoding_time,
            image_gen_latency: self.image_generation_latency,
            text_emb_latency: self.text_embeddings_latency,
            total_requests: self.total_requests,
            failed_requests: self.failed_requests,
        }
    }

    /// Makes the entry for a device of which `reading` was taken.
    pub fn from_reading(reading: &DeviceReading) -> (entry: GpuMetrics)
        ensures
            entry == GpuMetrics::spec_from_reading(*reading),
    {
        GpuMetrics {
            memory_used: reading.memory_used,
            memory_total: reading.memory_total,
            memory_free: reading.memory_free,
            percentage_time_read_write: reading.utilization_memory,
            percentage_time_gpu_execution: reading.utilization_gpu,
            temperature: reading.temperature,
            power_usage: reading.power_usage,
            max_power_limit: reading.power_management_limit,
            default_power_limit: reading.enforced_power_limit,
            max_temperature: reading.max_temperature,
            energy_consumption: reading.total_energy_consumption,
            chat_completion_latency: ZERO,
            time_to_first_token: ZERO,
            inter_token_generation_time: ZERO,
            decoding_time: ZERO,
            image_generation_latency: ZERO,
            text_embeddings_latency: ZERO,
            total_requests: 0,
            failed_requests: 0,
        }
    }

    /// Replaces the serving-engine statistics of the entry by `statistics`.
    pub fn with_statistics(self, statistics: &MetricsResponse) -> (entry: GpuMetrics)
        ensures
            entry == self.spec_with_statistics(*statistics),
    {
        let mut entry = self;
        entry.chat_completion_latency = statistics.chat_latency;
        entry.time_to_first_token = statistics.first_token_time;
        entry.inter_token_generation_time = statistics.inter_token_time;
        entry.decoding_time = statistics.decoding_time;
        entry.image_generation_latency = statistics.image_gen_latency;
        entry.text_embeddings_latency = statistics.text_emb_latency;
        entry.total_requests = statistics.total_requests;
        entry.failed_requests = statistics.failed_requests;
        entry
    }
}

impl Default for GpuMetrics {
    fn default() -> (entry: GpuMetrics)
        ensures
            entry == GpuMetrics::zero(),
    {
        GpuMetrics {
            memory_used: 0,
            memory_total: 0,
            memory_free: 0,
            percentage_time_read_write: 0,
            percentage_time_gpu_execution: 0,
            temperature: 0,
            power_usage: 0,
            max_power_limit: 0,
            default_power_limit: 0,
            max_temperature: 0,
            energy_consumption: 0,
            chat_completion_latency: ZERO,
            time_to_first_token: ZERO,
            inter_token_generation_time: ZERO,
            decoding_time: ZERO,
            image_generation_latency: ZERO,
            text_embeddings_latency: ZERO,
            total_requests: 0,
            failed_requests: 0,
        }
    }
}

/// The usage metrics of a node.
#[derive(Debug, PartialEq, Eq)]
pub struct NodeMetrics {
    /// The CPU usage of the node, as the bit pattern of a single-precision number.
    pub cpu_usage: u32,
    /// The average frequency of the CPUs in the system.
    pub cpu_frequency: u64,
    /// The amount of RAM used.
    pub ram_used: u64,
    /// The total amount of RAM in the system.
    pub ram_total: u64,
    /// The amount of swap memory used.
    pub ram_swap_used: u64,
    /// The total amount of swap memory in the system.
    pub ram_swap_total: u64,
    /// The number of CPUs in the system.
    pub num_cpus: u32,
    /// The total number of bytes received from the network.
    pub network_rx: u64,
    /// The total number of bytes transmitted to the network.
    pub network_tx: u64,
    /// The number of accelerator devices in the system.
    pub num_gpus: u32,
    /// The usage metrics of each accelerator device, in the order of the devices'
    /// indices.
    pub gpus: Vec<GpuMetrics>,
}

/// The content of a `NodeMetrics`.
pub struct NodeMetricsView {
    pub cpu_usage: u32,
    pub cpu_frequency: u64,
    pub ram_used: u64,
    pub ram_total: u64,
    pub ram_swap_used: u64,
    pub ram_swap_total: u64,
    pub num_cpus: u32,
    pub network_rx: u64,
    pub network_tx: u64,
    pub num_gpus: u32,
    pub gpus: Seq<GpuMetrics>,
}

impl NodeMetricsView {
    /// The record in which every field is zero and no device is listed.
    pub open spec fn zero() -> NodeMetricsView {
        NodeMetricsView {
            cpu_usage: 0,
            cpu_frequency: 0,
            ram_used: 0,
            ram_total: 0,
            ram_swap_used: 0,
            ram_swap_total: 0,
            num_cpus: 0,
            network_rx: 0,
            network_tx: 0,
            num_gpus: 0,
            gpus: Seq::empty(),
        }
    }

    /// Whether the record lists as many devices as it counts.
    pub open spec fn well_formed(self) -> bool {
        self.num_gpus == self.gpus.len()
    }
}

impl View for NodeMetrics {
    type V = NodeMetricsView;

    open spec fn view(&self) -> NodeMetricsView {
        NodeMetricsView {
            cpu_usage: self.cpu_usage,
            cpu_frequency: self.cpu_frequency,
            ram_used: self.ram_used,
            ram_total: self.ram_total,
            ram_swap_used: self.ram_swap_used,
            ram_swap_total: self.ram_swap_total,
            num_cpus: self.num_cpus,
            network_rx: self.network_rx,
            network_tx: self.network_tx,
            num_gpus: self.num_gpus,
            gpus: self.gpus@,
        }
    }
}

impl NodeMetrics {
    /// Whether the record lists as many devices as it counts.
    pub open spec fn well_formed(&self) -> bool {
        self@.well_formed()
    }

    /// Says whether the record lists as many devices as it counts. A record that this
    /// crate computes does; one that came over the wire need not.
    pub fn is_well_formed(&self) -> (well_formed: bool)
        ensures
            well_formed == self.well_formed(),
    {
        self.gpus.len() <= u32::MAX as usize && self.num_gpus == self.gpus.len() as u32
    }
}

impl Default for NodeMetrics {
    fn default() -> (metrics: NodeMetrics)
        ensures
            metrics@ == NodeMetricsView::zero(),
            metrics.well_formed(),
    {
        NodeMetrics {
            cpu_usage: 0,
            cpu_frequency: 0,
            ram_used: 0,
            ram_total: 0,
            ram_swap_used: 0,
            ram_swap_total: 0,
            num_cpus: 0,
            network_rx: 0,
            network_tx: 0,
            num_gpus: 0,
            gpus: Vec::new(),
        }
    }
}

/// The traffic counters of one network interface.
#[derive(Debug, Clone, Copy, PartialEq, Eq, Structural)]
pub struct NetworkCounters {
    /// Bytes received.
    pub received: u64,
    /// Bytes transmitted.
    pub transmitted: u64,
}

/// What a refreshed snapshot of the host shows.
#[derive(Debug, PartialEq, Eq)]
pub struct SystemSnapshot {
    /// The CPU usage over all cores, as the bit pattern of a single-precision number.
    pub cpu_usage: u32,
    /// The frequency of each core.
    pub cpu_frequencies: Vec<u64>,
    /// The amount of RAM used.
    pub used_memory: u64,
    /// The total amount of RAM.
    pub total_memory: u64,
    /// The amount of swap memory used.
    pub used_swap: u64,
    /// The total amount of swap memory.
    pub total_swap: u64,
    /// The traffic counters of each network interface.
    pub networks: Vec<NetworkCounters>,
}

/// The sum of `values`.
pub open spec fn sum(values: Seq<u64>) -> nat
    decreases values.len(),
{
    if values.len() == 0 {
        0
    } else {
        sum(values.drop_last()) + values.last() as nat
    }
}

/// The average of `values`, rounded down; zero where there are none.
pub open spec fn average(values: Seq<u64>) -> nat {
    if values.len() == 0 {
        0
    } else {
        sum(values) / values.len()
    }
}

/// The bytes received over all of `networks`.
pub open spec fn total_received(networks: Seq<NetworkCounters>) -> nat
    decreases networks.len(),
{
    if networks.len() == 0 {
        0
    } else {
        total_received(networks.drop_last()) + networks.last().received as nat
    }
}

/// The bytes transmitted over all of `networks`.
pub open spec fn total_transmitted(networks: Seq<NetworkCounters>) -> nat
    decreases networks.len(),
{
    if networks.len() == 0 {
        0
    } else {
        total_transmitted(networks.drop_last()) + networks.last().transmitted as nat
    }
}

/// A sum of `u64` values is at most as many times `u64::MAX` as there are values.
proof fn lemma_sum_bound(values: Seq<u64>)
    ensures
        sum(values) <= values.len() * u64::MAX,
    decreases values.len(),
{
    if values.len() > 0 {
        lemma_sum_bound(values.drop_last());
        assert(sum(values) <= (values.len() - 1) * u64::MAX + u64::MAX);
        assert((values.len() - 1) * u64::MAX + u64::MAX == values.len() * u64::MAX)
            by (nonlinear_arith);
    }
}

/// The average frequency of the cores whose frequencies are given, rounded down; zero
/// where there is no core.
pub fn average_frequency(frequencies: &Vec<u64>) -> (frequency: u64)
    ensures
        frequency == average(frequencies@),
{
    let count = frequencies.len();
    if count == 0 {
        return 0;
    }
    let mut total: u128 = 0;
    let mut i: usize = 0;
    while i < count
        invariant
            i <= count,
            count == frequencies.len(),
            total == sum(frequencies@.take(i as int)),
        decreases count - i,
    {
        proof {
            assert(frequencies@.take(i + 1).drop_last() =~= frequencies@.take(i as int));
            lemma_sum_bound(frequencies@.take(i + 1));
            assert((i + 1) * u64::MAX <= u128::MAX) by (nonlinear_arith)
                requires
                    i + 1 <= 0x1_0000_0000_0000_0000,
            ;
        }
        total = total + frequencies[i] as u128;
        i = i + 1;
    }
    proof {
        assert(frequencies@.take(count as int) =~= frequencies@);
        lemma_sum_bound(frequencies@);
        assert(total / (count as u128) <= u64::MAX) by (nonlinear_arith)
            requires
                count > 0,
                total <= count * u64::MAX,
        ;
    }
    (total / count as u128) as u64
}

impl SystemSnapshot {
    /// Whether the traffic counters of all interfaces together fit in 64 bits, in each
    /// direction.
    pub open spec fn traffic_fits(&self) -> bool {
        &&& total_received(self.networks@) <= u64::MAX
        &&& total_transmitted(self.networks@) <= u64::MAX
    }

    /// The number of cores, and zero where that number does not fit in 32 bits.
    pub open spec fn core_count(&self) -> u32 {
        if self.cpu_frequencies.len() <= u32::MAX {
            self.cpu_frequencies.len() as u32
        } else {
            0
        }
    }

    /// The record that the snapshot gives: the host's fields filled in, no devices yet.
    pub open spec fn metrics(&self) -> NodeMetricsView {
        NodeMetricsView {
            cpu_usage: self.cpu_usage,
            cpu_frequency: average(self.cpu_frequencies@) as u64,
            ram_used: self.used_memory,
            ram_total: self.total_memory,
            ram_swap_used: self.used_swap,
            ram_swap_total: self.total_swap,
            num_cpus: self.core_count(),
            network_rx: total_received(self.networks@) as u64,
            network_tx: total_transmitted(self.networks@) as u64,
            num_gpus: 0,
            gpus: Seq::empty(),
        }
    }

    /// The bytes received and the bytes transmitted over all interfaces, where both
    /// totals fit in 64 bits.
    pub fn total_traffic(&self) -> (totals: Option<(u64, u64)>)
        ensures
            self.traffic_fits() ==> totals == Some(
                (
                    total_received(self.networks@) as u64,
                    total_transmitted(self.networks@) as u64,
                ),
            ),
            !self.traffic_fits() ==> totals is None,
    {
        let mut received: u64 = 0;
        let mut transmitted: u64 = 0;
        let mut i: usize = 0;
        while i < self.networks.len()
            invariant
                i <= self.networks.len(),
                received == total_received(self.networks@.take(i as int)),
                transmitted == total_transmitted(self.networks@.take(i as int)),
            decreases self.networks.len() - i,
        {
            let counters = self.networks[i];
            proof {
                assert(self.networks@.take(i + 1).drop_last() =~= self.networks@.take(i as int));
                lemma_traffic_grows(self.networks@, i + 1);
            }
            if counters.received > u64::MAX - received || counters.transmitted > u64::MAX
                - transmitted {
                return None;
            }
            received = received + counters.received;
            transmitted = transmitted + counters.transmitted;
            i = i + 1;
        }
        proof {
            assert(self.networks@.take(self.networks.len() as int) =~= self.networks@);
        }
        Some((received, transmitted))
    }
}

/// The totals over the first `n` interfaces are no more than the totals over all.
proof fn lemma_traffic_grows(networks: Seq<NetworkCounters>, n: int)
    requires
        0 <= n <= networks.len(),
    ensures
        total_received(networks.take(n)) <= total_received(networks),
        total_transmitted(networks.take(n)) <= total_transmitted(networks),
    decreases networks.len(),
{
    if n < networks.len() {
        lemma_traffic_grows(networks.drop_last(), n);
        assert(networks.drop_last().take(n) =~= networks.take(n));
    } else {
        assert(networks.take(n) =~= networks);
    }
}

/// Fills in the host's part of a node's usage metrics from a snapshot of the host.
///
/// The frequency is the average over the cores, and zero where the snapshot shows no
/// core. The number of cores is zero where it does not fit in 32 bits. The network
/// counters are the totals over all interfaces. No device is listed yet.
pub fn collect_system_metrics(snapshot: &SystemSnapshot) -> (metrics: NodeMetrics)
    requires
        snapshot.traffic_fits(),
    ensures
        metrics@ == snapshot.metrics(),
        metrics.well_formed(),
{
    let cpu_frequency = average_frequency(&snapshot.cpu_frequencies);
    let (network_rx, network_tx) = snapshot.total_traffic().unwrap();
    let cores = snapshot.cpu_frequencies.len();
    let num_cpus: u32 = if cores <= u32::MAX as usize {
        cores as u32
    } else {
        0
    };
    NodeMetrics {
        cpu_usage: snapshot.cpu_usage,
        cpu_frequency,
        ram_used: snapshot.used_memory,
        ram_total: snapshot.total_memory,
        ram_swap_used: snapshot.used_swap,
        ram_swap_total: snapshot.total_swap,
        num_cpus,
        network_rx,
        network_tx,
        num_gpus: 0,
        gpus: Vec::new(),
    }
}

/// The description of the first device in `readings` that could not be read, if there
/// is one.
pub open spec fn first_fault(readings: Seq<Result<DeviceReading, String>>) -> Option<Seq<char>>
    decreases readings.len(),
{
    if readings.len() == 0 {
        None
    } else {
        match readings.first() {
            Err(reason) => Some(reason@),
            Ok(_) => first_fault(readings.drop_first()),
        }
    }
}

/// The entries of the devices of which `readings` were taken, each with `statistics`
/// as its serving-engine statistics, where every device was read.
pub open spec fn device_entries(
    readings: Seq<Result<DeviceReading, String>>,
    statistics: MetricsResponse,
) -> Seq<GpuMetrics> {
    Seq::new(
        readings.len(),
        |i: int| GpuMetrics::spec_from_reading(readings[i]->Ok_0).spec_with_statistics(statistics),
    )
}

/// Where no device failed, every device was read.
pub proof fn lemma_no_fault_all_read(readings: Seq<Result<DeviceReading, String>>)
    ensures
        first_fault(readings) is None <==> forall|i: int|
            0 <= i < readings.len() ==> (#[trigger] readings[i]) is Ok,
    decreases readings.len(),
{
    if readings.len() > 0 {
        let rest = readings.drop_first();
        lemma_no_fault_all_read(rest);
        if first_fault(readings) is None {
            assert forall|i: int| 0 <= i < readings.len() implies (#[trigger] readings[i]) is Ok
            by {
                if i > 0 {
                    assert(rest[i - 1] == readings[i]);
                }
            }
        } else if readings.first() is Ok {
            let i = choose|i: int| 0 <= i < rest.len() && !((#[trigger] rest[i]) is Ok);
            assert(rest[i] == readings[i + 1]);
        }
    }
}

/// Turns the readings of the devices, in the order of their indices, into their
/// entries of the usage metrics.
///
/// One device that could not be read fails the whole: the error is that of the first
/// such device. The serving-engine statistics of every entry are zero.
pub fn collect_gpu_metrics(readings: &Vec<Result<DeviceReading, String>>) -> (entries: Result<
    Vec<GpuMetrics>,
    NodeMetricsError,
>)
    ensures
        match entries {
            Ok(gpus) => first_fault(readings@) is None && gpus@ == device_entries(
                readings@,
                MetricsResponse::zero(),
            ),
            Err(error) => first_fault(readings@) is Some && error@
                == NodeMetricsErrorView::NvmlError(first_fault(readings@)->Some_0),
        },
{
    let mut gpus: Vec<GpuMetrics> = Vec::new();
    let mut i: usize = 0;
    proof {
        assert(readings@.skip(0) =~= readings@);
    }
    while i < readings.len()
        invariant
            i <= readings.len(),
            first_fault(readings@) == first_fault(readings@.skip(i as int)),
            gpus@.len() == i,
            forall|j: int|
                0 <= j < i ==> (#[trigger] readings@[j]) is Ok && gpus@[j]
                    == GpuMetrics::spec_from_reading(readings@[j]->Ok_0),
        decreases readings.len() - i,
    {
        proof {
            assert(readings@.skip(i as int).first() == readings@[i as int]);
            assert(readings@.skip(i as int).drop_first() =~= readings@.skip(i + 1));
        }
        match &readings[i] {
            Err(reason) => {
                return Err(NodeMetricsError::NvmlError(reason.clone()));
            },
            Ok(reading) => {
                gpus.push(GpuMetrics::from_reading(reading));
            },
        }
        i = i + 1;
    }
    proof {
        assert(readings@.skip(readings.len() as int).len() == 0);
        assert(gpus@ =~= device_entries(readings@, MetricsResponse::zero()));
    }
    Ok(gpus)
}

/// The statistics that go into the record: those that were gathered, and zeros where
/// the gathering failed.
pub open spec fn statistics_or_zero(
    statistics: Result<MetricsResponse, NodeMetricsError>,
) -> MetricsResponse {
    match statistics {
        Ok(gathered) => gathered,
        Err(_) => MetricsResponse::zero(),
    }
}

/// The usage metrics of a node, or the reason why there are none.
///
/// * `devices`: what the enumeration of the accelerator devices gave: the reading of
///   each device, or why it could not be read; or why the devices could not be
///   enumerated at all.
/// * `snapshot`: the refreshed snapshot of the host.
/// * `statistics`: the serving-engine statistics, or why there are none.
pub open spec fn usage_metrics(
    devices: Result<Vec<Result<DeviceReading, String>>, String>,
    snapshot: SystemSnapshot,
    statistics: Result<MetricsResponse, NodeMetricsError>,
) -> Result<NodeMetricsView, NodeMetricsErrorView> {
    match devices {
        Err(reason) => Err(NodeMetricsErrorView::NvmlError(reason@)),
        Ok(readings) => match first_fault(readings@) {
            Some(reason) => Err(NodeMetricsErrorView::NvmlError(reason)),
            None => Ok(
                NodeMetricsView {
                    num_gpus: readings.len() as u32,
                    gpus: device_entries(readings@, statistics_or_zero(statistics)),
                    ..snapshot.metrics()
                },
            ),
        },
    }
}

/// Computes the usage metrics of the node from what was read in one telemetry cycle.
///
/// The cycle fails where the devices could not be enumerated or one of them could not
/// be read: no device is then listed, not even those that were read. Missing
/// serving-engine statistics do not fail it: they count as zeros. On success the
/// record lists every device, each with the node's serving-engine statistics.
pub fn compute_usage_metrics(
    devices: &Result<Vec<Result<DeviceReading, String>>, String>,
    snapshot: &SystemSnapshot,
    statistics: &Result<MetricsResponse, NodeMetricsError>,
) -> (metrics: Result<NodeMetrics, NodeMetricsError>)
    requires
        snapshot.traffic_fits(),
        devices matches Ok(readings) ==> readings.len() <= u32::MAX,
    ensures
        match metrics {
            Ok(record) => usage_metrics(*devices, *snapshot, *statistics) == Ok::<
                NodeMetricsView,
                NodeMetricsErrorView,
            >(record@) && record.well_formed(),
            Err(error) => usage_metrics(*devices, *snapshot, *statistics) == Err::<
                NodeMetricsView,
                NodeMetricsErrorView,
            >(error@),
        },
{
    let readings = match devices {
        Err(reason) => {
            return Err(NodeMetricsError::NvmlError(reason.clone()));
        },
        Ok(readings) => readings,
    };
    let device_count = readings.len() as u32;
    let system_metrics = collect_system_metrics(snapshot);
    let mut gpus = match collect_gpu_metrics(readings) {
        Err(error) => {
            return Err(error);
        },
        Ok(gpus) => gpus,
    };
    let merged = match statistics {
        Ok(gathered) => *gathered,
        Err(_) => MetricsResponse::default(),
    };
    let mut i: usize = 0;
    while i < gpus.len()
        invariant
            i <= gpus.len(),
            gpus@.len() == readings@.len(),
            merged == statistics_or_zero(*statistics),
            forall|j: int|
                0 <= j < i ==> #[trigger] gpus@[j] == device_entries(readings@, merged)[j],
            forall|j: int|
                i <= j < gpus.len() ==> #[trigger] gpus@[j] == device_entries(
                    readings@,
                    MetricsResponse::zero(),
                )[j],
        decreases gpus.len() - i,
    {
        let entry = gpus[i].with_statistics(&merged);
        gpus.set(i, entry);
        i = i + 1;
    }
    proof {
        assert(gpus@ =~= device_entries(readings@, merged));
    }
    Ok(
        NodeMetrics {
            cpu_usage: system_metrics.cpu_usage,
            cpu_frequency: system_metrics.cpu_frequency,
            ram_used: system_metrics.ram_used,
            ram_total: system_metrics.ram_total,
            ram_swap_used: system_metrics.ram_swap_used,
            ram_swap_total: system_metrics.ram_swap_total,
            num_cpus: system_metrics.num_cpus,
            network_rx: system_metrics.network_rx,
            network_tx: system_metrics.network_tx,
            num_gpus: device_count,
            gpus,
        },
    )
}

/// Where the devices cannot be enumerated, the cycle yields no record.
pub proof fn lemma_enumeration_failure_is_fatal(
    devices: Result<Vec<Result<DeviceReading, String>>, String>,
    snapshot: SystemSnapshot,
    statistics: Result<MetricsResponse, NodeMetricsError>,
)
    requires
        devices is Err,
    ensures
        usage_metrics(devices, snapshot, statistics) == Err::<
            NodeMetricsView,
            NodeMetricsErrorView,
        >(NodeMetricsErrorView::NvmlError(devices->Err_0@)),
{
}

/// Where one device cannot be read, the cycle yields no record.
pub proof fn lemma_device_failure_is_fatal(
    devices: Result<Vec<Result<DeviceReading, String>>, String>,
    snapshot: SystemSnapshot,
    statistics: Result<MetricsResponse, NodeMetricsError>,
    index: int,
)
    requires
        devices matches Ok(readings) && 0 <= index < readings.len() && readings[index] is Err,
    ensures
        usage_metrics(devices, snapshot, statistics) is Err,
{
    lemma_no_fault_all_read(devices->Ok_0@);
}

/// Where the devices are read, the cycle yields a record whatever became of the
/// serving-engine statistics; the record lists every device; and where the statistics
/// are missing or all zero, so are those of every device's entry.
pub proof fn lemma_statistics_never_fail_the_cycle(
    devices: Result<Vec<Result<DeviceReading, String>>, String>,
    snapshot: SystemSnapshot,
    statistics: Result<MetricsResponse, NodeMetricsError>,
)
    requires
        devices matches Ok(readings) && first_fault(readings@) is None,
    ensures
        usage_metrics(devices, snapshot, statistics) matches Ok(record) && record.gpus.len()
            == devices->Ok_0.len() && forall|i: int|
            0 <= i < record.gpus.len() ==> (#[trigger] record.gpus[i]).statistics()
                == statistics_or_zero(statistics),
{
}

/// Where every query for a serving-engine statistic fails and the devices are read,
/// the cycle still yields a record, and every statistic of every device's entry is
/// zero.
pub proof fn lemma_failed_queries_leave_zero_statistics(
    devices: Result<Vec<Result<DeviceReading, String>>, String>,
    snapshot: SystemSnapshot,
    answers: Seq<NamedReply>,
)
    requires
        devices matches Ok(readings) && first_fault(readings@) is None,
        forall|i: int| 0 <= i < answers.len() ==> gave_no_value(#[trigger] answers[i]),
    ensures
        usage_metrics(devices, snapshot, Ok(gathered(answers))) matches Ok(record) && forall|
            i: int,
        |
            0 <= i < record.gpus.len() ==> (#[trigger] record.gpus[i]).statistics()
                == MetricsResponse::zero(),
{
    lemma_all_failed_gathers_zero(answers);
    lemma_statistics_never_fail_the_cycle(devices, snapshot, Ok(gathered(answers)));
}

} // verus!
