//! The metrics the exporter publishes for each Awair device, and the registry that holds them.
use vstd::prelude::*;
use crate::collectors::{
    bump, child_in, child_label, count_of, counter_family_consts, counter_family_counts,
    counter_family_fq_name, counter_family_help, counter_family_inc, counter_family_labels,
    counter_family_new, counter_registered, counter_samples, counts_exact, descriptor_id,
    dim_hash, distinct_key_set, distinct_keys, family_kind, family_name, family_sample_count, family_sample_label,
    fq_name, gauge_family_child, gauge_child_labels, gauge_family_children, gauge_family_consts, gauge_family_fq_name,
    gauge_family_help, gauge_family_labels, gauge_family_new, gauge_registered,
    gauge_sample_labels, label_key, label_map, label_name_chars_from, metric_name_chars_from,
    register_counter_family, register_gauge_family, registry_dims, registry_gather, registry_ids,
    registry_is_own, registry_names, registry_new, registry_size, valid_const_labels,
    valid_label_name, valid_metric_name, CounterFamily, GaugeChild, GaugeFamily,
};
use crate::exposition::{encodable, encode_panics, family_encodable};
use prometheus::Registry as PrometheusRegistry;

verus! {

/// The label that tells devices apart in every metric.
pub open spec fn instance_label() -> Seq<char> {
    "instance"@
}

/// The gauges set from each reading of a device.
#[derive(Debug, Clone, Copy, PartialEq, Eq, Structural)]
pub enum GaugeKind {
    Score,
    DewPoint,
    Temp,
    Humid,
    AbsHumid,
    Co2,
    Co2Est,
    Co2EstBaseline,
    Voc,
    VocBaseline,
    VocH2Raw,
    VocEthanolRaw,
    Pm25,
    Pm10Est,
}

/// The counters kept for each device.
#[derive(Debug, Clone, Copy, PartialEq, Eq, Structural)]
pub enum CounterKind {
    Scraped,
    Failed,
}

/// The metric name under which each gauge is published.
pub open spec fn gauge_name(k: GaugeKind) -> Seq<char> {
    match k {
        GaugeKind::Score => "awair_score"@,
        GaugeKind::DewPoint => "awair_dew_point_celsius"@,
        GaugeKind::Temp => "awair_temperature_celcius"@,
        GaugeKind::Humid => "awair_humidity_ratio"@,
        GaugeKind::AbsHumid => "awair_absolute_humidity"@,
        GaugeKind::Co2 => "awair_co2_ppm"@,
        GaugeKind::Co2Est => "awair_co2_est"@,
        GaugeKind::Co2EstBaseline => "awair_co2_est_baseline"@,
        GaugeKind::Voc => "awair_voc_ppb"@,
        GaugeKind::VocBaseline => "awair_voc_baseline"@,
        GaugeKind::VocH2Raw => "awair_voc_h2_raw"@,
        GaugeKind::VocEthanolRaw => "awair_voc_ethanol_raw"@,
        GaugeKind::Pm25 => "awair_pm25"@,
        GaugeKind::Pm10Est => "awair_pm25_est"@,
    }
}

/// The help text published with each gauge.
pub open spec fn gauge_help(k: GaugeKind) -> Seq<char> {
    match k {
        GaugeKind::Score => "Awair Score (0-100)"@,
        GaugeKind::DewPoint => "The temperature at which water will condense and form into dew"@,
        GaugeKind::Temp => "Dry bulb temperature"@,
        GaugeKind::Humid => "Relative Humidity"@,
        GaugeKind::AbsHumid => "Absolute humidity g/m^3"@,
        GaugeKind::Co2 => "Carbon Dioxide ppm"@,
        GaugeKind::Co2Est => "Estimated Carbon Dioxide (ppm - calculated by the TVOC sensor)"@,
        GaugeKind::Co2EstBaseline => "A unitless value that represents the baseline from which the TVOC sensor partially derives its estimated (e)CO2output."@,
        GaugeKind::Voc => "Total Volatile Organic Compounds"@,
        GaugeKind::VocBaseline => "A unitless value that represents the baseline from which the TVOC sensor partially derives its TVOC output"@,
        GaugeKind::VocH2Raw => "A unitless value that represents the Hydrogen gas signal from which the TVOC sensor partially derives its TVOC output"@,
        GaugeKind::VocEthanolRaw => "A unitless value that represents the Ethanol gas signal from which the TVOC sensor partially derives its TVOC output"@,
        GaugeKind::Pm25 => "Particulate matter less than 2.5 microns in diameter (µg/m^3)"@,
        GaugeKind::Pm10Est => "Estimated particulate matter less than 10 microns in diameter (µg/m^3 - calculated by the PM2.5 sensor)"@,
    }
}

/// The metric name under which each counter is published.
pub open spec fn counter_name(k: CounterKind) -> Seq<char> {
    match k {
        CounterKind::Scraped => "awair_scraped_total"@,
        CounterKind::Failed => "awair_scrape_failed_total"@,
    }
}

/// The help text published with each counter.
pub open spec fn counter_help(k: CounterKind) -> Seq<char> {
    match k {
        CounterKind::Scraped => "The number of times the Awair has been scraped so far"@,
        CounterKind::Failed => "The number of times requests to Awair failed so far"@,
    }
}

impl GaugeKind {
    /// The metric name of this gauge.
    pub fn name(&self) -> (s: &'static str)
        ensures
            s@ == gauge_name(*self),
    {
        match self {
            GaugeKind::Score => "awair_score",
            GaugeKind::DewPoint => "awair_dew_point_celsius",
            GaugeKind::Temp => "awair_temperature_celcius",
            GaugeKind::Humid => "awair_humidity_ratio",
            GaugeKind::AbsHumid => "awair_absolute_humidity",
            GaugeKind::Co2 => "awair_co2_ppm",
            GaugeKind::Co2Est => "awair_co2_est",
            GaugeKind::Co2EstBaseline => "awair_co2_est_baseline",
            GaugeKind::Voc => "awair_voc_ppb",
            GaugeKind::VocBaseline => "awair_voc_baseline",
            GaugeKind::VocH2Raw => "awair_voc_h2_raw",
            GaugeKind::VocEthanolRaw => "awair_voc_ethanol_raw",
            GaugeKind::Pm25 => "awair_pm25",
            GaugeKind::Pm10Est => "awair_pm25_est",
        }
    }

    /// The help text of this gauge.
    pub fn help(&self) -> (s: &'static str)
        ensures
            s@ == gauge_help(*self),
    {
        match self {
            GaugeKind::Score => "Awair Score (0-100)",
            GaugeKind::DewPoint => "The temperature at which water will condense and form into dew",
            GaugeKind::Temp => "Dry bulb temperature",
            GaugeKind::Humid => "Relative Humidity",
            GaugeKind::AbsHumid => "Absolute humidity g/m^3",
            GaugeKind::Co2 => "Carbon Dioxide ppm",
            GaugeKind::Co2Est => "Estimated Carbon Dioxide (ppm - calculated by the TVOC sensor)",
            GaugeKind::Co2EstBaseline => "A unitless value that represents the baseline from which the TVOC sensor partially derives its estimated (e)CO2output.",
            GaugeKind::Voc => "Total Volatile Organic Compounds",
            GaugeKind::VocBaseline => "A unitless value that represents the baseline from which the TVOC sensor partially derives its TVOC output",
            GaugeKind::VocH2Raw => "A unitless value that represents the Hydrogen gas signal from which the TVOC sensor partially derives its TVOC output",
            GaugeKind::VocEthanolRaw => "A unitless value that represents the Ethanol gas signal from which the TVOC sensor partially derives its TVOC output",
            GaugeKind::Pm25 => "Particulate matter less than 2.5 microns in diameter (µg/m^3)",
            GaugeKind::Pm10Est => "Estimated particulate matter less than 10 microns in diameter (µg/m^3 - calculated by the PM2.5 sensor)",
        }
    }
}

impl CounterKind {
    /// The metric name of this counter.
    pub fn name(&self) -> (s: &'static str)
        ensures
            s@ == counter_name(*self),
    {
        match self {
            CounterKind::Scraped => "awair_scraped_total",
            CounterKind::Failed => "awair_scrape_failed_total",
        }
    }

    /// The help text of this counter.
    pub fn help(&self) -> (s: &'static str)
        ensures
            s@ == counter_help(*self),
    {
        match self {
            CounterKind::Scraped => "The number of times the Awair has been scraped so far",
            CounterKind::Failed => "The number of times requests to Awair failed so far",
        }
    }
}

/// The metrics the exporter publishes, each kind with its name and help text: the
/// score, dew point, temperature, relative and absolute humidity, CO2 (measured,
/// estimated and its baseline), VOC (total, baseline, hydrogen and ethanol signals) and
/// particulate-matter gauges, and the scrape and failure counters.
pub proof fn published_metric_table()
    ensures
        gauge_name(GaugeKind::Score) == "awair_score"@ && gauge_help(GaugeKind::Score)
            == "Awair Score (0-100)"@,
        gauge_name(GaugeKind::DewPoint) == "awair_dew_point_celsius"@ && gauge_help(GaugeKind::DewPoint)
            == "The temperature at which water will condense and form into dew"@,
        gauge_name(GaugeKind::Temp) == "awair_temperature_celcius"@ && gauge_help(GaugeKind::Temp)
            == "Dry bulb temperature"@,
        gauge_name(GaugeKind::Humid) == "awair_humidity_ratio"@ && gauge_help(GaugeKind::Humid)
            == "Relative Humidity"@,
        gauge_name(GaugeKind::AbsHumid) == "awair_absolute_humidity"@ && gauge_help(GaugeKind::AbsHumid)
            == "Absolute humidity g/m^3"@,
        gauge_name(GaugeKind::Co2) == "awair_co2_ppm"@ && gauge_help(GaugeKind::Co2)
            == "Carbon Dioxide ppm"@,
        gauge_name(GaugeKind::Co2Est) == "awair_co2_est"@ && gauge_help(GaugeKind::Co2Est)
            == "Estimated Carbon Dioxide (ppm - calculated by the TVOC sensor)"@,
        gauge_name(GaugeKind::Co2EstBaseline) == "awair_co2_est_baseline"@ && gauge_help(GaugeKind::Co2EstBaseline)
            == "A unitless value that represents the baseline from which the TVOC sensor partially derives its estimated (e)CO2output."@,
        gauge_name(GaugeKind::Voc) == "awair_voc_ppb"@ && gauge_help(GaugeKind::Voc)
            == "Total Volatile Organic Compounds"@,
        gauge_name(GaugeKind::VocBaseline) == "awair_voc_baseline"@ && gauge_help(GaugeKind::VocBaseline)
            == "A unitless value that represents the baseline from which the TVOC sensor partially derives its TVOC output"@,
        gauge_name(GaugeKind::VocH2Raw) == "awair_voc_h2_raw"@ && gauge_help(GaugeKind::VocH2Raw)
            == "A unitless value that represents the Hydrogen gas signal from which the TVOC sensor partially derives its TVOC output"@,
        gauge_name(GaugeKind::VocEthanolRaw) == "awair_voc_ethanol_raw"@ && gauge_help(GaugeKind::VocEthanolRaw)
            == "A unitless value that represents the Ethanol gas signal from which the TVOC sensor partially derives its TVOC output"@,
        gauge_name(GaugeKind::Pm25) == "awair_pm25"@ && gauge_help(GaugeKind::Pm25)
            == "Particulate matter less than 2.5 microns in diameter (µg/m^3)"@,
        gauge_name(GaugeKind::Pm10Est) == "awair_pm25_est"@ && gauge_help(GaugeKind::Pm10Est)
            == "Estimated particulate matter less than 10 microns in diameter (µg/m^3 - calculated by the PM2.5 sensor)"@,
        counter_name(CounterKind::Scraped) == "awair_scraped_total"@ && counter_help(CounterKind::Scraped)
            == "The number of times the Awair has been scraped so far"@,
        counter_name(CounterKind::Failed) == "awair_scrape_failed_total"@ && counter_help(CounterKind::Failed)
            == "The number of times requests to Awair failed so far"@,
{
}

/// The order in which the exporter creates and registers its metrics: the 14 gauges
/// from the score to the particulate-matter estimate, then the scrape counter, then
/// the failure counter (a failing registration leaves the ones before it registered).
pub proof fn registration_order()
    ensures
        gauge_at(0) == GaugeKind::Score,
        gauge_at(1) == GaugeKind::DewPoint,
        gauge_at(2) == GaugeKind::Temp,
        gauge_at(3) == GaugeKind::Humid,
        gauge_at(4) == GaugeKind::AbsHumid,
        gauge_at(5) == GaugeKind::Co2,
        gauge_at(6) == GaugeKind::Co2Est,
        gauge_at(7) == GaugeKind::Co2EstBaseline,
        gauge_at(8) == GaugeKind::Voc,
        gauge_at(9) == GaugeKind::VocBaseline,
        gauge_at(10) == GaugeKind::VocH2Raw,
        gauge_at(11) == GaugeKind::VocEthanolRaw,
        gauge_at(12) == GaugeKind::Pm25,
        gauge_at(13) == GaugeKind::Pm10Est,
        table_name(14) == counter_name(CounterKind::Scraped),
        table_name(15) == counter_name(CounterKind::Failed),
        forall|i: int| 0 <= i < 14 ==> #[trigger] table_name(i) == gauge_name(gauge_at(i)),
{
}

/// Why the metrics could not be set up: the error `prometheus` reported.
#[derive(Debug)]
pub enum MetricsError {
    Prometheus(prometheus::Error),
}


/// The namespace and subsystem put before the name of every metric, and the constant
/// labels every metric carries (as name and value pairs; a later pair for a name
/// replaces an earlier one).
#[derive(Debug, Clone)]
pub struct MetricOptions {
    pub namespace: String,
    pub subsystem: String,
    pub const_labels: Vec<(String, String)>,
}

impl MetricOptions {
    /// The constant labels, by name.
    pub open spec fn const_map(&self) -> Map<Seq<char>, Seq<char>> {
        label_map(self.const_labels@)
    }

    /// Options with the given namespace and subsystem (either may be empty) and no
    /// constant label.
    pub fn new(namespace: String, subsystem: String) -> (o: MetricOptions)
        ensures
            o.namespace@ == namespace@,
            o.subsystem@ == subsystem@,
            o.const_map() == Map::<Seq<char>, Seq<char>>::empty(),
    {
        MetricOptions { namespace, subsystem, const_labels: Vec::new() }
    }

    /// The options with the constant label `name` set to `value`.
    pub fn const_label(self, name: String, value: String) -> (o: MetricOptions)
        ensures
            o.namespace@ == self.namespace@,
            o.subsystem@ == self.subsystem@,
            o.const_map() == self.const_map().insert(name@, value@),
    {
        let mut o = self;
        let ghost before = o.const_labels@;
        o.const_labels.push((name, value));
        proof {
            assert(o.const_labels@.drop_last() =~= before);
        }
        o
    }
}

/// The gauge at position `i` of the exporter's table (0 to 13).
pub open spec fn gauge_at(i: int) -> GaugeKind {
    if i == 0 {
        GaugeKind::Score
    } else if i == 1 {
        GaugeKind::DewPoint
    } else if i == 2 {
        GaugeKind::Temp
    } else if i == 3 {
        GaugeKind::Humid
    } else if i == 4 {
        GaugeKind::AbsHumid
    } else if i == 5 {
        GaugeKind::Co2
    } else if i == 6 {
        GaugeKind::Co2Est
    } else if i == 7 {
        GaugeKind::Co2EstBaseline
    } else if i == 8 {
        GaugeKind::Voc
    } else if i == 9 {
        GaugeKind::VocBaseline
    } else if i == 10 {
        GaugeKind::VocH2Raw
    } else if i == 11 {
        GaugeKind::VocEthanolRaw
    } else if i == 12 {
        GaugeKind::Pm25
    } else if i == 13 {
        GaugeKind::Pm10Est
    } else {
        GaugeKind::Pm10Est
    }
}

/// The position of a gauge in the exporter's table.
pub open spec fn gauge_index(k: GaugeKind) -> int {
    match k {
        GaugeKind::Score => 0,
        GaugeKind::DewPoint => 1,
        GaugeKind::Temp => 2,
        GaugeKind::Humid => 3,
        GaugeKind::AbsHumid => 4,
        GaugeKind::Co2 => 5,
        GaugeKind::Co2Est => 6,
        GaugeKind::Co2EstBaseline => 7,
        GaugeKind::Voc => 8,
        GaugeKind::VocBaseline => 9,
        GaugeKind::VocH2Raw => 10,
        GaugeKind::VocEthanolRaw => 11,
        GaugeKind::Pm25 => 12,
        GaugeKind::Pm10Est => 13,
    }
}

/// The gauge at position `i` of the table.
fn gauge_kind_at(i: usize) -> (k: GaugeKind)
    requires
        i < 14,
    ensures
        k == gauge_at(i as int),
{
    match i {
        0 => GaugeKind::Score,
        1 => GaugeKind::DewPoint,
        2 => GaugeKind::Temp,
        3 => GaugeKind::Humid,
        4 => GaugeKind::AbsHumid,
        5 => GaugeKind::Co2,
        6 => GaugeKind::Co2Est,
        7 => GaugeKind::Co2EstBaseline,
        8 => GaugeKind::Voc,
        9 => GaugeKind::VocBaseline,
        10 => GaugeKind::VocH2Raw,
        11 => GaugeKind::VocEthanolRaw,
        12 => GaugeKind::Pm25,
        _ => GaugeKind::Pm10Est,
    }
}

impl GaugeKind {
    /// The position of this gauge in the table.
    pub fn index(&self) -> (i: usize)
        ensures
            i == gauge_index(*self),
            i < 14,
    {
        match self {
            GaugeKind::Score => 0,
            GaugeKind::DewPoint => 1,
            GaugeKind::Temp => 2,
            GaugeKind::Humid => 3,
            GaugeKind::AbsHumid => 4,
            GaugeKind::Co2 => 5,
            GaugeKind::Co2Est => 6,
            GaugeKind::Co2EstBaseline => 7,
            GaugeKind::Voc => 8,
            GaugeKind::VocBaseline => 9,
            GaugeKind::VocH2Raw => 10,
            GaugeKind::VocEthanolRaw => 11,
            GaugeKind::Pm25 => 12,
            GaugeKind::Pm10Est => 13,
        }
    }
}

/// The name of entry `i` of the exporter's table of 16 metrics: the 14 gauges in order,
/// then the scrape counter and the failure counter.
pub open spec fn table_name(i: int) -> Seq<char> {
    if i < 14 {
        gauge_name(gauge_at(i))
    } else if i == 14 {
        counter_name(CounterKind::Scraped)
    } else {
        counter_name(CounterKind::Failed)
    }
}

/// The help text of entry `i` of the table.
pub open spec fn table_help(i: int) -> Seq<char> {
    if i < 14 {
        gauge_help(gauge_at(i))
    } else if i == 14 {
        counter_help(CounterKind::Scraped)
    } else {
        counter_help(CounterKind::Failed)
    }
}

/// The fully-qualified name of entry `i` under the given options.
pub open spec fn table_fq(ns: Seq<char>, ss: Seq<char>, i: int) -> Seq<char> {
    fq_name(ns, ss, table_name(i))
}

/// The descriptor id of entry `i` under the given options and constant labels.
pub open spec fn entry_id(ns: Seq<char>, ss: Seq<char>, cl: Map<Seq<char>, Seq<char>>, i: int) -> u64 {
    descriptor_id(table_fq(ns, ss, i), cl)
}

/// The dimension hash of entry `i` with the given constant labels.
pub open spec fn entry_dim(cl: Map<Seq<char>, Seq<char>>, i: int) -> u64 {
    dim_hash(table_help(i), cl, seq![instance_label()])
}

/// The descriptor ids `ids`, with those of the first `n` entries of the table added.
pub open spec fn ids_through(
    ns: Seq<char>,
    ss: Seq<char>,
    cl: Map<Seq<char>, Seq<char>>,
    ids: Set<u64>,
    n: int,
) -> Set<u64>
    decreases n,
{
    if n <= 0 {
        ids
    } else {
        ids_through(ns, ss, cl, ids, n - 1).insert(entry_id(ns, ss, cl, n - 1))
    }
}

/// The dimension hashes `dims` by name, with those of the first `n` entries of the
/// table recorded.
pub open spec fn dims_through(
    ns: Seq<char>,
    ss: Seq<char>,
    cl: Map<Seq<char>, Seq<char>>,
    dims: Map<Seq<char>, u64>,
    n: int,
) -> Map<Seq<char>, u64>
    decreases n,
{
    if n <= 0 {
        dims
    } else {
        dims_through(ns, ss, cl, dims, n - 1).insert(table_fq(ns, ss, n - 1), entry_dim(cl, n - 1))
    }
}

/// The names `names`, with those of the first `n` entries of the table added.
pub open spec fn names_through(ns: Seq<char>, ss: Seq<char>, names: Set<Seq<char>>, n: int) -> Set<Seq<char>>
    decreases n,
{
    if n <= 0 {
        names
    } else {
        names_through(ns, ss, names, n - 1).insert(table_fq(ns, ss, n - 1))
    }
}

/// Entry `i` can be created and registered where `ids` and `dims` are registered: its
/// help text is not empty, its name and the names of the constant labels are valid, its
/// descriptor id is not taken, and its name is not recorded with another dimension
/// hash.
pub open spec fn entry_registrable(
    ns: Seq<char>,
    ss: Seq<char>,
    cl: Map<Seq<char>, Seq<char>>,
    ids: Set<u64>,
    dims: Map<Seq<char>, u64>,
    i: int,
) -> bool {
    &&& table_help(i).len() > 0
    &&& valid_metric_name(table_fq(ns, ss, i))
    &&& valid_const_labels(cl)
    &&& !ids.contains(entry_id(ns, ss, cl, i))
    &&& dims.contains_key(table_fq(ns, ss, i)) ==> dims[table_fq(ns, ss, i)] == entry_dim(cl, i)
}

/// Entry `i` can be registered after the entries before it, starting where `ids` and
/// `dims` are registered.
pub open spec fn entry_registrable_after(
    ns: Seq<char>,
    ss: Seq<char>,
    cl: Map<Seq<char>, Seq<char>>,
    ids: Set<u64>,
    dims: Map<Seq<char>, u64>,
    i: int,
) -> bool {
    entry_registrable(ns, ss, cl, ids_through(ns, ss, cl, ids, i), dims_through(ns, ss, cl, dims, i), i)
}

/// All 16 entries can be created and registered one after the other, starting where
/// `ids` and `dims` are registered.
pub open spec fn table_registrable(
    ns: Seq<char>,
    ss: Seq<char>,
    cl: Map<Seq<char>, Seq<char>>,
    ids: Set<u64>,
    dims: Map<Seq<char>, u64>,
) -> bool {
    forall|i: int| 0 <= i < 16 ==> #[trigger] entry_registrable_after(ns, ss, cl, ids, dims, i)
}

/// Entry `n` is the first of the table that cannot be registered, starting where `ids`
/// and `dims` are registered.
pub open spec fn first_unregistrable(
    ns: Seq<char>,
    ss: Seq<char>,
    cl: Map<Seq<char>, Seq<char>>,
    ids: Set<u64>,
    dims: Map<Seq<char>, u64>,
    n: int,
) -> bool {
    &&& 0 <= n < 16
    &&& !entry_registrable_after(ns, ss, cl, ids, dims, n)
    &&& forall|j: int| 0 <= j < n ==> #[trigger] entry_registrable_after(ns, ss, cl, ids, dims, j)
}

/// The label that tells devices apart is a valid label name.
proof fn instance_label_valid()
    ensures
        valid_label_name(instance_label()),
{
    reveal_strlit("instance");
    reveal_with_fuel(label_name_chars_from, 9);
    assert("instance"@.len() == 8);
}

/// Creates the gauge family `name`, labelled by device and carrying the constant labels
/// of the options, and registers it with `r`. It succeeds exactly when the help text is
/// not empty, the name under the options and the names of the constant labels are
/// valid, its descriptor id is not yet registered and its name is not registered with
/// other dimensions; a failure registers nothing.
fn gauge(r: &mut PrometheusRegistry, opts: &MetricOptions, name: &str, help: &str) -> (res: Result<
    GaugeFamily,
    MetricsError,
>)
    requires
        registry_is_own(*old(r)),
    ensures
        registry_is_own(*final(r)),
        res is Ok <==> (help@.len() > 0 && valid_metric_name(
            fq_name(opts.namespace@, opts.subsystem@, name@),
        ) && valid_const_labels(opts.const_map()) && !registry_ids(*old(r)).contains(
            descriptor_id(fq_name(opts.namespace@, opts.subsystem@, name@), opts.const_map()),
        ) && (registry_dims(*old(r)).contains_key(fq_name(opts.namespace@, opts.subsystem@, name@))
            ==> registry_dims(*old(r))[fq_name(opts.namespace@, opts.subsystem@, name@)]
            == dim_hash(help@, opts.const_map(), seq![instance_label()]))),
        res matches Ok(g) ==> {
            &&& gauge_family_fq_name(g) == fq_name(opts.namespace@, opts.subsystem@, name@)
            &&& gauge_family_help(g) == help@
            &&& gauge_family_labels(g) == seq![instance_label()]
            &&& gauge_family_consts(g) == opts.const_map()
            &&& gauge_child_labels(g) == Set::<Seq<char>>::empty()
            &&& gauge_registered(*final(r), g)
            &&& registry_ids(*final(r)) == registry_ids(*old(r)).insert(
                descriptor_id(fq_name(opts.namespace@, opts.subsystem@, name@), opts.const_map()),
            )
            &&& registry_dims(*final(r)) == registry_dims(*old(r)).insert(
                fq_name(opts.namespace@, opts.subsystem@, name@),
                dim_hash(help@, opts.const_map(), seq![instance_label()]),
            )
            &&& registry_size(*final(r)) == registry_size(*old(r)) + 1
        },
        res is Err ==> registry_ids(*final(r)) == registry_ids(*old(r)),
        res is Err ==> registry_dims(*final(r)) == registry_dims(*old(r)),
        res is Err ==> registry_size(*final(r)) == registry_size(*old(r)),
        forall|d: CounterFamily|
            counter_registered(*old(r), d) ==> #[trigger] counter_registered(*final(r), d),
        forall|h: GaugeFamily|
            gauge_registered(*old(r), h) ==> #[trigger] gauge_registered(*final(r), h),
{
    proof {
        instance_label_valid();
        reveal_strlit("instance");
    }
    let g = match gauge_family_new(
        opts.namespace.as_str(),
        opts.subsystem.as_str(),
        name,
        help,
        &opts.const_labels,
        "instance",
    ) {
        Ok(g) => g,
        Err(e) => {
            return Err(MetricsError::Prometheus(e));
        },
    };
    match register_gauge_family(r, &g) {
        Ok(()) => Ok(g),
        Err(e) => Err(MetricsError::Prometheus(e)),
    }
}

/// Creates the counter family `name`, labelled by device and carrying the constant labels
/// of the options, and registers it with `r`. It succeeds exactly when the help text is
/// not empty, the name under the options and the names of the constant labels are
/// valid, its descriptor id is not yet registered and its name is not registered with
/// other dimensions; a failure registers nothing.
fn counter(r: &mut PrometheusRegistry, opts: &MetricOptions, name: &str, help: &str) -> (res: Result<
    CounterFamily,
    MetricsError,
>)
    requires
        registry_is_own(*old(r)),
    ensures
        registry_is_own(*final(r)),
        res is Ok <==> (help@.len() > 0 && valid_metric_name(
            fq_name(opts.namespace@, opts.subsystem@, name@),
        ) && valid_const_labels(opts.const_map()) && !registry_ids(*old(r)).contains(
            descriptor_id(fq_name(opts.namespace@, opts.subsystem@, name@), opts.const_map()),
        ) && (registry_dims(*old(r)).contains_key(fq_name(opts.namespace@, opts.subsystem@, name@))
            ==> registry_dims(*old(r))[fq_name(opts.namespace@, opts.subsystem@, name@)]
            == dim_hash(help@, opts.const_map(), seq![instance_label()]))),
        res matches Ok(c) ==> {
            &&& counter_family_fq_name(c) == fq_name(opts.namespace@, opts.subsystem@, name@)
            &&& counter_family_help(c) == help@
            &&& counter_family_labels(c) == seq![instance_label()]
            &&& counter_family_consts(c) == opts.const_map()
            &&& counter_family_counts(c) == Map::<Seq<char>, nat>::empty()
            &&& counter_registered(*final(r), c)
            &&& registry_ids(*final(r)) == registry_ids(*old(r)).insert(
                descriptor_id(fq_name(opts.namespace@, opts.subsystem@, name@), opts.const_map()),
            )
            &&& registry_dims(*final(r)) == registry_dims(*old(r)).insert(
                fq_name(opts.namespace@, opts.subsystem@, name@),
                dim_hash(help@, opts.const_map(), seq![instance_label()]),
            )
            &&& registry_size(*final(r)) == registry_size(*old(r)) + 1
        },
        res is Err ==> registry_ids(*final(r)) == registry_ids(*old(r)),
        res is Err ==> registry_dims(*final(r)) == registry_dims(*old(r)),
        res is Err ==> registry_size(*final(r)) == registry_size(*old(r)),
        forall|d: CounterFamily|
            counter_registered(*old(r), d) ==> #[trigger] counter_registered(*final(r), d),
        forall|h: GaugeFamily|
            gauge_registered(*old(r), h) ==> #[trigger] gauge_registered(*final(r), h),
{
    proof {
        instance_label_valid();
        reveal_strlit("instance");
    }
    let c = match counter_family_new(
        opts.namespace.as_str(),
        opts.subsystem.as_str(),
        name,
        help,
        &opts.const_labels,
        "instance",
    ) {
        Ok(c) => c,
        Err(e) => {
            return Err(MetricsError::Prometheus(e));
        },
    };
    match register_counter_family(r, &c) {
        Ok(()) => Ok(c),
        Err(e) => Err(MetricsError::Prometheus(e)),
    }
}

/// The collectors of one exporter.
#[derive(Debug)]
struct Metrics {
    gauges: Vec<GaugeFamily>,
    scraped: CounterFamily,
    failed: CounterFamily,
}

/// A counter family carries entry `i` of the table under the options, with the device
/// label and the constant labels `cl`.
pub open spec fn counter_matches_entry(
    c: CounterFamily,
    ns: Seq<char>,
    ss: Seq<char>,
    cl: Map<Seq<char>, Seq<char>>,
    i: int,
) -> bool {
    &&& counter_family_fq_name(c) == table_fq(ns, ss, i)
    &&& counter_family_help(c) == table_help(i)
    &&& counter_family_labels(c) == seq![instance_label()]
    &&& counter_family_consts(c) == cl
}

/// A gauge family carries entry `i` of the table under the options, with the device
/// label and the constant labels `cl`.
pub open spec fn gauge_matches_entry(
    g: GaugeFamily,
    ns: Seq<char>,
    ss: Seq<char>,
    cl: Map<Seq<char>, Seq<char>>,
    i: int,
) -> bool {
    &&& gauge_family_fq_name(g) == table_fq(ns, ss, i)
    &&& gauge_family_help(g) == table_help(i)
    &&& gauge_family_labels(g) == seq![instance_label()]
    &&& gauge_family_consts(g) == cl
}

impl Metrics {
    /// Every family carries its table entry under the options and the constant labels
    /// `cl` and is registered in `r`, and the children of every family have distinct
    /// keys.
    spec fn wf(&self, ns: Seq<char>, ss: Seq<char>, cl: Map<Seq<char>, Seq<char>>, r: PrometheusRegistry) -> bool {
        &&& self.gauges@.len() == 14
        &&& forall|i: int| 0 <= i < 14 ==> {
            &&& gauge_matches_entry(#[trigger] self.gauges@[i], ns, ss, cl, i)
            &&& gauge_registered(r, self.gauges@[i])
            &&& distinct_key_set(gauge_child_labels(self.gauges@[i]))
        }
        &&& counter_matches_entry(self.scraped, ns, ss, cl, 14)
        &&& counter_matches_entry(self.failed, ns, ss, cl, 15)
        &&& registry_is_own(r)
        &&& counter_registered(r, self.scraped)
        &&& counter_registered(r, self.failed)
        &&& distinct_keys(counter_family_counts(self.scraped))
        &&& distinct_keys(counter_family_counts(self.failed))
    }

    /// Creates the 16 families of the table under `opts`, in order, and registers each
    /// with `r`. It succeeds exactly when the whole table can be registered; on failure
    /// the families created before the first one that cannot be registered stay
    /// registered, and nothing else is.
    fn new(r: &mut PrometheusRegistry, opts: &MetricOptions) -> (res: Result<Metrics, MetricsError>)
        requires
            registry_is_own(*old(r)),
        ensures
            res is Ok <==> table_registrable(
                opts.namespace@,
                opts.subsystem@,
                opts.const_map(),
                registry_ids(*old(r)),
                registry_dims(*old(r)),
            ),
            res matches Ok(m) ==> {
                &&& m.wf(opts.namespace@, opts.subsystem@, opts.const_map(), *final(r))
                &&& counter_family_counts(m.scraped) == Map::<Seq<char>, nat>::empty()
                &&& counter_family_counts(m.failed) == Map::<Seq<char>, nat>::empty()
                &&& forall|i: int|
                    0 <= i < 14 ==> gauge_child_labels(#[trigger] m.gauges@[i]) == Set::<
                        Seq<char>,
                    >::empty()
                &&& registry_ids(*final(r)) == ids_through(
                    opts.namespace@,
                    opts.subsystem@,
                    opts.const_map(),
                    registry_ids(*old(r)),
                    16,
                )
                &&& registry_dims(*final(r)) == dims_through(
                    opts.namespace@,
                    opts.subsystem@,
                    opts.const_map(),
                    registry_dims(*old(r)),
                    16,
                )
                &&& registry_size(*final(r)) == registry_size(*old(r)) + 16
            },
            res is Err ==> exists|n: int|
                {
                    &&& first_unregistrable(
                        opts.namespace@,
                        opts.subsystem@,
                        opts.const_map(),
                        registry_ids(*old(r)),
                        registry_dims(*old(r)),
                        n,
                    )
                    &&& registry_ids(*final(r)) == ids_through(
                        opts.namespace@,
                        opts.subsystem@,
                        opts.const_map(),
                        registry_ids(*old(r)),
                        n,
                    )
                    &&& registry_dims(*final(r)) == dims_through(
                        opts.namespace@,
                        opts.subsystem@,
                        opts.const_map(),
                        registry_dims(*old(r)),
                        n,
                    )
                    &&& registry_size(*final(r)) == registry_size(*old(r)) + n
                },
            registry_is_own(*final(r)),
    {
        let ghost ns = opts.namespace@;
        let ghost ss = opts.subsystem@;
        let ghost cl = opts.const_map();
        let ghost ids0 = registry_ids(*r);
        let ghost dims0 = registry_dims(*r);
        let ghost size0 = registry_size(*r);
        let mut gauges: Vec<GaugeFamily> = Vec::new();
        let mut i: usize = 0;
        while i < 14
            invariant
                0 <= i <= 14,
                ns == opts.namespace@,
                ss == opts.subsystem@,
                cl == opts.const_map(),
                registry_is_own(*r),
                ids0 == registry_ids(*old(r)),
                dims0 == registry_dims(*old(r)),
                size0 == registry_size(*old(r)),
                gauges@.len() == i,
                registry_ids(*r) == ids_through(ns, ss, cl, ids0, i as int),
                registry_dims(*r) == dims_through(ns, ss, cl, dims0, i as int),
                registry_size(*r) == size0 + i,
                forall|j: int|
                    0 <= j < i ==> {
                        &&& gauge_matches_entry(#[trigger] gauges@[j], ns, ss, cl, j)
                        &&& gauge_registered(*r, gauges@[j])
                        &&& gauge_child_labels(gauges@[j]) == Set::<Seq<char>>::empty()
                    },
                forall|j: int| 0 <= j < i ==> #[trigger] entry_registrable_after(ns, ss, cl, ids0, dims0, j),
            decreases 14 - i,
        {
            let k = gauge_kind_at(i);
            let g = match gauge(r, opts, k.name(), k.help()) {
                Ok(g) => g,
                Err(e) => {
                    proof {
                        assert(!entry_registrable_after(ns, ss, cl, ids0, dims0, i as int));
                        assert(first_unregistrable(ns, ss, cl, ids0, dims0, i as int));
                    }
                    return Err(e);
                },
            };
            gauges.push(g);
            i = i + 1;
        }
        let scraped = match counter(r, opts, CounterKind::Scraped.name(), CounterKind::Scraped.help()) {
            Ok(c) => c,
            Err(e) => {
                proof {
                    assert(!entry_registrable_after(ns, ss, cl, ids0, dims0, 14));
                    assert(first_unregistrable(ns, ss, cl, ids0, dims0, 14));
                }
                return Err(e);
            },
        };
        let failed = match counter(r, opts, CounterKind::Failed.name(), CounterKind::Failed.help()) {
            Ok(c) => c,
            Err(e) => {
                proof {
                    assert(entry_registrable_after(ns, ss, cl, ids0, dims0, 14));
                    assert(!entry_registrable_after(ns, ss, cl, ids0, dims0, 15));
                    assert(first_unregistrable(ns, ss, cl, ids0, dims0, 15));
                }
                return Err(e);
            },
        };
        let m = Metrics { gauges, scraped, failed };
        proof {
            assert(entry_registrable_after(ns, ss, cl, ids0, dims0, 14));
            assert(entry_registrable_after(ns, ss, cl, ids0, dims0, 15));
            assert(ids_through(ns, ss, cl, ids0, 16) == ids_through(ns, ss, cl, ids0, 15).insert(
                entry_id(ns, ss, cl, 15),
            ));
            assert(dims_through(ns, ss, cl, dims0, 16) == dims_through(ns, ss, cl, dims0, 15).insert(
                table_fq(ns, ss, 15),
                entry_dim(cl, 15),
            ));
        }
        Ok(m)
    }
}

/// The registry the exporter serves, with the collectors it holds and the options their
/// names were built under.
#[derive(Debug)]
pub struct Registry {
    r: PrometheusRegistry,
    m: Metrics,
    opts: MetricOptions,
}

/// The position of a gauge in the table is below 14, and the table holds that gauge there.
pub proof fn lemma_gauge_index(k: GaugeKind)
    ensures
        0 <= gauge_index(k) < 14,
        gauge_at(gauge_index(k)) == k,
{
    match k {
            GaugeKind::Score => {},
            GaugeKind::DewPoint => {},
            GaugeKind::Temp => {},
            GaugeKind::Humid => {},
            GaugeKind::AbsHumid => {},
            GaugeKind::Co2 => {},
            GaugeKind::Co2Est => {},
            GaugeKind::Co2EstBaseline => {},
            GaugeKind::Voc => {},
            GaugeKind::VocBaseline => {},
            GaugeKind::VocH2Raw => {},
            GaugeKind::VocEthanolRaw => {},
            GaugeKind::Pm25 => {},
            GaugeKind::Pm10Est => {},
    }
}

impl Registry {
    /// The registry is well formed: every collector carries its table entry under the
    /// options and is registered, the registry holds exactly the table's names, one
    /// collector each, the children of every family have distinct keys, and every gauge
    /// has a child for exactly the devices whose scrapes have been counted.
    pub closed spec fn wf(&self) -> bool {
        &&& self.m.wf(self.opts.namespace@, self.opts.subsystem@, self.opts.const_map(), self.r)
        &&& registry_names(self.r) == names_through(
            self.opts.namespace@,
            self.opts.subsystem@,
            Set::<Seq<char>>::empty(),
            16,
        )
        &&& registry_names(self.r).finite()
        &&& registry_size(self.r) == registry_names(self.r).len()
        &&& forall|j: int|
            0 <= j < 14 ==> gauge_child_labels(#[trigger] self.m.gauges@[j]) == counter_family_counts(
                self.m.scraped,
            ).dom()
    }

    /// The namespace and subsystem the names were built under.
    pub closed spec fn options(&self) -> (Seq<char>, Seq<char>) {
        (self.opts.namespace@, self.opts.subsystem@)
    }

    /// The constant labels every collector carries, by name.
    pub closed spec fn const_labels(&self) -> Map<Seq<char>, Seq<char>> {
        self.opts.const_map()
    }

    /// The fully-qualified names registered in the registry.
    pub closed spec fn registered_names(&self) -> Set<Seq<char>> {
        registry_names(self.r)
    }

    /// The gauge family of kind `k`.
    pub closed spec fn gauge_spec(&self, k: GaugeKind) -> GaugeFamily {
        self.m.gauges@[gauge_index(k)]
    }

    /// The counter family of kind `k`.
    pub closed spec fn counter_spec(&self, k: CounterKind) -> CounterFamily {
        match k {
            CounterKind::Scraped => self.m.scraped,
            CounterKind::Failed => self.m.failed,
        }
    }

    /// The children of gauge `k`, by device (label value): the handle of each.
    pub open spec fn gauge_handles(&self, k: GaugeKind) -> Map<Seq<char>, GaugeChild> {
        gauge_family_children(self.gauge_spec(k))
    }

    /// The devices (label values) that gauge `k` has a child for.
    pub open spec fn gauge_children(&self, k: GaugeKind) -> Set<Seq<char>> {
        gauge_child_labels(self.gauge_spec(k))
    }

    /// How many scrapes of each device have been counted, by the label value of its child.
    pub open spec fn scraped_counts(&self) -> Map<Seq<char>, nat> {
        counter_family_counts(self.counter_spec(CounterKind::Scraped))
    }

    /// How many failed requests to each device have been counted, by the label value of
    /// its child.
    pub open spec fn failed_counts(&self) -> Map<Seq<char>, nat> {
        counter_family_counts(self.counter_spec(CounterKind::Failed))
    }

    /// How many times counter `k` has counted each device, by the label value of its child.
    pub open spec fn counts(&self, k: CounterKind) -> Map<Seq<char>, nat> {
        counter_family_counts(self.counter_spec(k))
    }

    /// Creates a registry holding every gauge and counter of the exporter, each named
    /// under `opts`, with its own help text, labelled by device, carrying the constant
    /// labels of `opts`, and with no child yet. It succeeds exactly when the whole table
    /// can be registered in an empty registry.
    pub fn new(opts: MetricOptions) -> (res: Result<Registry, MetricsError>)
        ensures
            res is Ok <==> table_registrable(
                opts.namespace@,
                opts.subsystem@,
                opts.const_map(),
                Set::<u64>::empty(),
                Map::<Seq<char>, u64>::empty(),
            ),
            res matches Ok(reg) ==> {
                &&& reg.wf()
                &&& reg.options() == (opts.namespace@, opts.subsystem@)
                &&& reg.const_labels() == opts.const_map()
                &&& reg.registered_names() == names_through(
                    opts.namespace@,
                    opts.subsystem@,
                    Set::<Seq<char>>::empty(),
                    16,
                )
                &&& forall|k: GaugeKind|
                    {
                        &&& gauge_family_fq_name(#[trigger] reg.gauge_spec(k)) == fq_name(
                            opts.namespace@,
                            opts.subsystem@,
                            gauge_name(k),
                        )
                        &&& gauge_family_help(reg.gauge_spec(k)) == gauge_help(k)
                        &&& gauge_family_labels(reg.gauge_spec(k)) == seq![instance_label()]
                        &&& gauge_family_consts(reg.gauge_spec(k)) == opts.const_map()
                        &&& gauge_child_labels(reg.gauge_spec(k)) == Set::<Seq<char>>::empty()
                    }
                &&& forall|k: CounterKind|
                    {
                        &&& counter_family_fq_name(#[trigger] reg.counter_spec(k)) == fq_name(
                            opts.namespace@,
                            opts.subsystem@,
                            counter_name(k),
                        )
                        &&& counter_family_help(reg.counter_spec(k)) == counter_help(k)
                        &&& counter_family_labels(reg.counter_spec(k)) == seq![instance_label()]
                        &&& counter_family_consts(reg.counter_spec(k)) == opts.const_map()
                        &&& counter_family_counts(reg.counter_spec(k)) == Map::<Seq<char>, nat>::empty()
                    }
            },
    {
        let mut r = registry_new();
        let m = Metrics::new(&mut r, &opts)?;
        proof {
            let ns = opts.namespace@;
            let ss = opts.subsystem@;
            let cl = opts.const_map();
            lemma_dims_names(ns, ss, cl, Map::<Seq<char>, u64>::empty(), 16);
            assert(Map::<Seq<char>, u64>::empty().dom() =~= Set::<Seq<char>>::empty());
            lemma_registrable_names_count(ns, ss, cl, 16);
        }
        let reg = Registry { r, m, opts };
        proof {
            assert forall|k: GaugeKind|
                {
                    &&& gauge_family_fq_name(#[trigger] reg.gauge_spec(k)) == fq_name(
                        opts.namespace@,
                        opts.subsystem@,
                        gauge_name(k),
                    )
                    &&& gauge_family_help(reg.gauge_spec(k)) == gauge_help(k)
                    &&& gauge_family_labels(reg.gauge_spec(k)) == seq![instance_label()]
                    &&& gauge_family_consts(reg.gauge_spec(k)) == opts.const_map()
                    &&& gauge_child_labels(reg.gauge_spec(k)) == Set::<Seq<char>>::empty()
                } by {
                lemma_gauge_index(k);
                let i = gauge_index(k);
                assert(gauge_matches_entry(reg.m.gauges@[i], opts.namespace@, opts.subsystem@, opts.const_map(), i));
            }
            assert forall|k: CounterKind|
                {
                    &&& counter_family_fq_name(#[trigger] reg.counter_spec(k)) == fq_name(
                        opts.namespace@,
                        opts.subsystem@,
                        counter_name(k),
                    )
                    &&& counter_family_help(reg.counter_spec(k)) == counter_help(k)
                    &&& counter_family_labels(reg.counter_spec(k)) == seq![instance_label()]
                    &&& counter_family_consts(reg.counter_spec(k)) == opts.const_map()
                    &&& counter_family_counts(reg.counter_spec(k)) == Map::<Seq<char>, nat>::empty()
                } by {
                match k {
                    CounterKind::Scraped => {},
                    CounterKind::Failed => {},
                }
            }
        }
        Ok(reg)
    }

    /// Records a scrape of device `instance`: returns its 14 gauges, in the order of
    /// `GaugeKind`, for the caller to set from the reading (at position `k.index()` the
    /// child of gauge `k` reached by the device's label value, created if new), and
    /// counts one more scrape of the device.
    pub fn scrape(&mut self, instance: &str) -> (children: Vec<GaugeChild>)
        requires
            old(self).wf(),
        ensures
            final(self).wf(),
            children@.len() == 14,
            final(self).options() == old(self).options(),
            final(self).const_labels() == old(self).const_labels(),
            final(self).registered_names() == old(self).registered_names(),
            final(self).scraped_counts() == bump(
                old(self).scraped_counts(),
                child_label(old(self).scraped_counts(), instance@),
            ),
            final(self).failed_counts() == old(self).failed_counts(),
            forall|k: GaugeKind|
                #[trigger] final(self).gauge_children(k) == old(self).gauge_children(k).insert(
                    child_in(old(self).gauge_children(k), instance@),
                ),
            forall|k: GaugeKind|
                #[trigger] final(self).gauge_handles(k) == old(self).gauge_handles(k).insert(
                    child_in(old(self).gauge_children(k), instance@),
                    children@[gauge_index(k)],
                ),
    {
        let ghost ns = self.opts.namespace@;
        let ghost ss = self.opts.subsystem@;
        let ghost cl = self.opts.const_map();
        let ghost old_gauges = self.m.gauges@;
        let mut children: Vec<GaugeChild> = Vec::new();
        let mut i: usize = 0;
        while i < 14
            invariant
                0 <= i <= 14,
                ns == self.opts.namespace@,
                ss == self.opts.subsystem@,
                cl == self.opts.const_map(),
                self.opts == old(self).opts,
                self.r == old(self).r,
                self.m.scraped == old(self).m.scraped,
                self.m.failed == old(self).m.failed,
                old_gauges == old(self).m.gauges@,
                old(self).wf(),
                self.m.gauges@.len() == 14,
                children@.len() == i,
                forall|j: int| 0 <= j < 14 ==> {
                    &&& gauge_matches_entry(#[trigger] self.m.gauges@[j], ns, ss, cl, j)
                    &&& gauge_registered(self.r, self.m.gauges@[j])
                    &&& distinct_key_set(gauge_child_labels(self.m.gauges@[j]))
                },
                forall|j: int|
                    0 <= j < i ==> gauge_child_labels(#[trigger] self.m.gauges@[j])
                        == gauge_child_labels(old_gauges[j]).insert(
                        child_in(gauge_child_labels(old_gauges[j]), instance@),
                    ),
                forall|j: int|
                    0 <= j < i ==> gauge_family_children(#[trigger] self.m.gauges@[j])
                        == gauge_family_children(old_gauges[j]).insert(
                        child_in(gauge_child_labels(old_gauges[j]), instance@),
                        children@[j],
                    ),
                forall|j: int| i <= j < 14 ==> #[trigger] self.m.gauges@[j] == old_gauges[j],
            decreases 14 - i,
        {
            let mut g = self.m.gauges.remove(i);
            let child = gauge_family_child(&mut g, instance);
            self.m.gauges.insert(i, g);
            children.push(child);
            proof {
                assert forall|j: int| 0 <= j < 14 implies {
                    &&& gauge_matches_entry(#[trigger] self.m.gauges@[j], ns, ss, cl, j)
                    &&& gauge_registered(self.r, self.m.gauges@[j])
                    &&& distinct_key_set(gauge_child_labels(self.m.gauges@[j]))
                } by {
                    if j == i {
                        lemma_child_in_keeps_distinct(gauge_child_labels(old_gauges[j]), instance@);
                    }
                }
            }
            i = i + 1;
        }
        counter_family_inc(&mut self.m.scraped, instance);
        proof {
            let s0 = counter_family_counts(old(self).m.scraped);
            lemma_bump_keeps_distinct_keys(s0, instance@);
            lemma_child_in_dom(s0, instance@);
            assert forall|j: int|
                0 <= j < 14 implies gauge_child_labels(#[trigger] self.m.gauges@[j])
                    == counter_family_counts(self.m.scraped).dom() by {
                assert(gauge_child_labels(old_gauges[j]) == s0.dom());
            }
            assert forall|k: GaugeKind|
                #[trigger] self.gauge_children(k) == old(self).gauge_children(k).insert(
                    child_in(old(self).gauge_children(k), instance@),
                ) by {
                lemma_gauge_index(k);
            }
            assert forall|k: GaugeKind|
                #[trigger] self.gauge_handles(k) == old(self).gauge_handles(k).insert(
                    child_in(old(self).gauge_children(k), instance@),
                    children@[gauge_index(k)],
                ) by {
                lemma_gauge_index(k);
            }
        }
        children
    }

    /// Counts one more failed request to device `instance`: the child reached by its
    /// label value gains one, nothing else changes.
    pub fn failed(&mut self, instance: &str)
        requires
            old(self).wf(),
        ensures
            final(self).wf(),
            final(self).options() == old(self).options(),
            final(self).const_labels() == old(self).const_labels(),
            final(self).registered_names() == old(self).registered_names(),
            final(self).failed_counts() == bump(
                old(self).failed_counts(),
                child_label(old(self).failed_counts(), instance@),
            ),
            final(self).scraped_counts() == old(self).scraped_counts(),
            forall|k: GaugeKind| #[trigger] final(self).gauge_spec(k) == old(self).gauge_spec(k),
            forall|k: CounterKind|
                counter_family_fq_name(#[trigger] final(self).counter_spec(k)) == counter_family_fq_name(
                    old(self).counter_spec(k),
                ),
    {
        counter_family_inc(&mut self.m.failed, instance);
        proof {
            lemma_bump_keeps_distinct_keys(
                counter_family_counts(old(self).m.failed),
                instance@,
            );
        }
    }

    /// The current state of every collector in the registry. Every family can be
    /// encoded and carries one of the table's names under the options; each gauge has
    /// one sample for every device whose scrapes have been counted, and no other; each
    /// counter has one sample per device it has counted, valued at its count while the
    /// counts stay exact. Every sample carries the constant labels. In particular nothing
    /// is reported before the first scrape or failure is counted.
    pub fn gather(&self) -> (families: Vec<prometheus::proto::MetricFamily>)
        requires
            self.wf(),
        ensures
            !encode_panics(families@),
            encodable(families@),
            forall|i: int|
                0 <= i < families@.len() ==> exists|j: int|
                    0 <= j < 16 && family_name(#[trigger] families@[i]) == table_fq(
                        self.options().0,
                        self.options().1,
                        j,
                    ),
            forall|k: GaugeKind|
                #[trigger] gauge_sample_labels(
                    families@,
                    fq_name(self.options().0, self.options().1, gauge_name(k)),
                    instance_label(),
                ) == self.scraped_counts().dom(),
            forall|i: int, k: GaugeKind|
                0 <= i < families@.len() && family_name(#[trigger] families@[i]) == fq_name(
                    self.options().0,
                    self.options().1,
                    #[trigger] gauge_name(k),
                ) ==> family_sample_count(families@[i]) == self.scraped_counts().dom().len(),
            forall|i: int, k: CounterKind|
                0 <= i < families@.len() && family_name(#[trigger] families@[i]) == fq_name(
                    self.options().0,
                    self.options().1,
                    #[trigger] counter_name(k),
                ) ==> family_sample_count(families@[i]) == self.counts(k).dom().len(),
            forall|k: CounterKind|
                counts_exact(self.counts(k)) ==> #[trigger] counter_samples(
                    families@,
                    fq_name(self.options().0, self.options().1, counter_name(k)),
                    instance_label(),
                ) == self.counts(k),
            forall|i: int, j: int, n: Seq<char>|
                0 <= i < families@.len() && 0 <= j < family_sample_count(families@[i])
                    && self.const_labels().contains_key(n) && n != instance_label()
                    ==> #[trigger] family_sample_label(families@[i], j, n) == self.const_labels()[n],
            self.scraped_counts() == Map::<Seq<char>, nat>::empty() && self.failed_counts() == Map::<
                Seq<char>,
                nat,
            >::empty() ==> families@.len() == 0,
    {
        let families = registry_gather(&self.r, &self.m.scraped, &self.m.failed, &self.m.gauges);
        proof {
            let ns = self.opts.namespace@;
            let ss = self.opts.subsystem@;
            let sc = counter_family_counts(self.m.scraped);
            assert(self.options().0 == ns && self.options().1 == ss);
            assert forall|i: int| 0 <= i < families@.len() implies family_encodable(#[trigger] families@[i]) by {
                assert(families@[i] == families@[i]);
            }
            assert forall|i: int| 0 <= i < families@.len() implies exists|j: int|
                0 <= j < 16 && family_name(#[trigger] families@[i]) == table_fq(
                    self.options().0,
                    self.options().1,
                    j,
                ) by {
                let x = family_name(families@[i]);
                assert(family_kind(families@[i]) == family_kind(families@[i]));
                assert(registry_names(self.r).contains(x));
                lemma_names_through(ns, ss, Set::<Seq<char>>::empty(), 16, x);
                let j = choose|j: int| 0 <= j < 16 && #[trigger] table_fq(ns, ss, j) == x;
                assert(0 <= j < 16 && x == table_fq(ns, ss, j));
            }
            assert forall|k: GaugeKind|
                #[trigger] gauge_sample_labels(families@, fq_name(ns, ss, gauge_name(k)), instance_label())
                    == sc.dom() by {
                lemma_gauge_index(k);
                let j = gauge_index(k);
                assert(gauge_family_fq_name(self.m.gauges@[j]) == fq_name(ns, ss, gauge_name(k)));
            }
            assert forall|i: int, k: GaugeKind|
                0 <= i < families@.len() && family_name(#[trigger] families@[i]) == fq_name(
                    self.options().0,
                    self.options().1,
                    #[trigger] gauge_name(k),
                ) implies family_sample_count(families@[i]) == sc.dom().len() by {
                lemma_gauge_index(k);
                let j = gauge_index(k);
                assert(gauge_family_fq_name(self.m.gauges@[j]) == fq_name(ns, ss, gauge_name(k)));
            }
            assert forall|k: CounterKind|
                counts_exact(self.counts(k)) implies #[trigger] counter_samples(
                    families@,
                    fq_name(self.options().0, self.options().1, counter_name(k)),
                    instance_label(),
                ) == self.counts(k) by {
                match k {
                    CounterKind::Scraped => {},
                    CounterKind::Failed => {},
                }
            }
            assert forall|i: int, k: CounterKind|
                0 <= i < families@.len() && family_name(#[trigger] families@[i]) == fq_name(
                    self.options().0,
                    self.options().1,
                    #[trigger] counter_name(k),
                ) implies family_sample_count(families@[i]) == self.counts(k).dom().len() by {
                match k {
                    CounterKind::Scraped => {},
                    CounterKind::Failed => {},
                }
            }
            let cl = self.opts.const_map();
            assert forall|i: int, j: int, n: Seq<char>|
                0 <= i < families@.len() && 0 <= j < family_sample_count(families@[i])
                    && self.const_labels().contains_key(n) && n != instance_label()
                    implies #[trigger] family_sample_label(families@[i], j, n) == self.const_labels()[n] by {
                let x = family_name(families@[i]);
                assert(family_kind(families@[i]) == family_kind(families@[i]));
                assert(registry_names(self.r).contains(x));
                lemma_names_through(ns, ss, Set::<Seq<char>>::empty(), 16, x);
                let t = choose|t: int| 0 <= t < 16 && #[trigger] table_fq(ns, ss, t) == x;
                if t < 14 {
                    assert(gauge_matches_entry(self.m.gauges@[t], ns, ss, cl, t));
                    assert(gauge_family_fq_name(self.m.gauges@[t]) == x);
                }
            }
            if self.scraped_counts() == Map::<Seq<char>, nat>::empty() && self.failed_counts() == Map::<
                Seq<char>,
                nat,
            >::empty() && families@.len() > 0 {
                let x = family_name(families@[0]);
                assert(family_kind(families@[0]) == family_kind(families@[0]));
                assert(registry_names(self.r).contains(x));
                lemma_names_through(ns, ss, Set::<Seq<char>>::empty(), 16, x);
                let j = choose|j: int| 0 <= j < 16 && #[trigger] table_fq(ns, ss, j) == x;
                assert(sc.dom() =~= Set::<Seq<char>>::empty());
                assert(counter_family_counts(self.m.failed).dom() =~= Set::<Seq<char>>::empty());
                if j < 14 {
                    assert(gauge_family_fq_name(self.m.gauges@[j]) == x);
                    assert(family_sample_count(families@[0]) == 0);
                } else if j == 14 {
                    assert(family_sample_count(families@[0]) == 0);
                } else {
                    assert(family_sample_count(families@[0]) == 0);
                }
            }
        }
        families
    }
}

/// In a well-formed registry every gauge has a child for exactly the devices whose
/// scrapes have been counted: a device's gauges appear with its first scrape, and a
/// failed request alone adds none.
pub proof fn gauges_follow_scrapes(reg: &Registry)
    requires
        reg.wf(),
    ensures
        forall|k: GaugeKind| #[trigger] reg.gauge_children(k) == reg.scraped_counts().dom(),
{
    assert forall|k: GaugeKind| #[trigger] reg.gauge_children(k) == reg.scraped_counts().dom() by {
        lemma_gauge_index(k);
    }
}

/// In a well-formed registry the handles of gauge `k` are the children of the gauge
/// family published under `k`'s name with the registry's options, help text and
/// constant labels: so the handle `scrape` returns at position `k.index()` is a child
/// of the family published as gauge `k`, and of no other gauge's family.
pub proof fn gauge_handles_are_published_under_their_names(reg: &Registry)
    requires
        reg.wf(),
    ensures
        forall|k: GaugeKind|
            {
                &&& gauge_family_fq_name(#[trigger] reg.gauge_spec(k)) == fq_name(
                    reg.options().0,
                    reg.options().1,
                    gauge_name(k),
                )
                &&& gauge_family_help(reg.gauge_spec(k)) == gauge_help(k)
                &&& gauge_family_consts(reg.gauge_spec(k)) == reg.const_labels()
                &&& reg.gauge_handles(k) == gauge_family_children(reg.gauge_spec(k))
            },
        forall|k: GaugeKind, j: GaugeKind|
            k != j ==> gauge_family_fq_name(#[trigger] reg.gauge_spec(k)) != gauge_family_fq_name(
                #[trigger] reg.gauge_spec(j),
            ),
{
    let ns = reg.opts.namespace@;
    let ss = reg.opts.subsystem@;
    let cl = reg.opts.const_map();
    assert forall|k: GaugeKind|
        {
            &&& gauge_family_fq_name(#[trigger] reg.gauge_spec(k)) == fq_name(
                reg.options().0,
                reg.options().1,
                gauge_name(k),
            )
            &&& gauge_family_help(reg.gauge_spec(k)) == gauge_help(k)
            &&& gauge_family_consts(reg.gauge_spec(k)) == reg.const_labels()
            &&& reg.gauge_handles(k) == gauge_family_children(reg.gauge_spec(k))
        } by {
        lemma_gauge_index(k);
        assert(gauge_matches_entry(reg.m.gauges@[gauge_index(k)], ns, ss, cl, gauge_index(k)));
    }
    assert forall|k: GaugeKind, j: GaugeKind|
        k != j implies gauge_family_fq_name(#[trigger] reg.gauge_spec(k)) != gauge_family_fq_name(
            #[trigger] reg.gauge_spec(j),
        ) by {
        lemma_gauge_index(k);
        lemma_gauge_index(j);
        let a = gauge_index(k);
        let b = gauge_index(j);
        assert(gauge_matches_entry(reg.m.gauges@[a], ns, ss, cl, a));
        assert(gauge_matches_entry(reg.m.gauges@[b], ns, ss, cl, b));
        metric_names_distinct();
        metric_names_valid();
        assert(valid_metric_name(gauge_name(k)) && valid_metric_name(gauge_name(j)));
        if fq_name(ns, ss, gauge_name(k)) == fq_name(ns, ss, gauge_name(j)) {
            lemma_fq_name_injective(ns, ss, gauge_name(k), gauge_name(j));
        }
    }
}

/// Under fixed options, different non-empty names give different fully-qualified names.
pub proof fn lemma_fq_name_injective(ns: Seq<char>, ss: Seq<char>, a: Seq<char>, b: Seq<char>)
    requires
        a.len() > 0,
        b.len() > 0,
        fq_name(ns, ss, a) == fq_name(ns, ss, b),
    ensures
        a == b,
{
    let p = if ns.len() > 0 && ss.len() > 0 {
        ns + "_"@ + ss + "_"@
    } else if ns.len() > 0 {
        ns + "_"@
    } else if ss.len() > 0 {
        ss + "_"@
    } else {
        Seq::<char>::empty()
    };
    assert(fq_name(ns, ss, a) =~= p + a);
    assert(fq_name(ns, ss, b) =~= p + b);
    assert((p + a).subrange(p.len() as int, (p + a).len() as int) =~= a);
    assert((p + b).subrange(p.len() as int, (p + b).len() as int) =~= b);
}

/// `names_through` adds exactly the names of the first `n` entries.
pub proof fn lemma_names_through(ns: Seq<char>, ss: Seq<char>, names: Set<Seq<char>>, n: int, x: Seq<char>)
    requires
        0 <= n,
    ensures
        names_through(ns, ss, names, n).contains(x) <==> (names.contains(x) || exists|j: int|
            0 <= j < n && #[trigger] table_fq(ns, ss, j) == x),
    decreases n,
{
    if n > 0 {
        lemma_names_through(ns, ss, names, n - 1, x);
        if table_fq(ns, ss, n - 1) == x {
            assert(0 <= n - 1 < n && table_fq(ns, ss, n - 1) == x);
        }
        if exists|j: int| 0 <= j < n && #[trigger] table_fq(ns, ss, j) == x {
            let j = choose|j: int| 0 <= j < n && #[trigger] table_fq(ns, ss, j) == x;
            if j < n - 1 {
                assert(0 <= j < n - 1 && table_fq(ns, ss, j) == x);
            }
        }
    }
}

/// Adding the child a lookup of `label` reaches keeps the keys of the children distinct.
pub proof fn lemma_child_in_keeps_distinct(keys: Set<Seq<char>>, label: Seq<char>)
    requires
        distinct_key_set(keys),
    ensures
        distinct_key_set(keys.insert(child_in(keys, label))),
{
    let c = child_in(keys, label);
    let n = keys.insert(c);
    assert forall|a: Seq<char>, b: Seq<char>|
        n.contains(a) && n.contains(b) && label_key(a) == label_key(b) implies a == b by {
        if a != b {
            if a == c && !keys.contains(c) {
                assert(keys.contains(b));
                assert(c == label);
            } else if b == c && !keys.contains(c) {
                assert(keys.contains(a));
                assert(c == label);
            } else {
                assert(keys.contains(a) && keys.contains(b));
            }
        }
    }
}

/// A bump at the child reached by `label` keeps the keys of the children distinct.
pub proof fn lemma_bump_keeps_distinct_keys(counts: Map<Seq<char>, nat>, label: Seq<char>)
    requires
        distinct_keys(counts),
    ensures
        distinct_keys(bump(counts, child_label(counts, label))),
{
    let c = child_label(counts, label);
    let n = bump(counts, c);
    assert forall|a: Seq<char>, b: Seq<char>|
        n.contains_key(a) && n.contains_key(b) && label_key(a) == label_key(b) implies a == b by {
        if a != b {
            if a == c && !counts.contains_key(c) {
                assert(counts.contains_key(b));
                assert(c == label);
            } else if b == c && !counts.contains_key(c) {
                assert(counts.contains_key(a));
                assert(c == label);
            } else {
                assert(counts.contains_key(a) && counts.contains_key(b));
            }
        }
    }
}

/// Among children created with exactly the label values a counter has counted, a
/// lookup of `label` reaches the child an increment of the counter reaches.
pub proof fn lemma_child_in_dom(counts: Map<Seq<char>, nat>, label: Seq<char>)
    requires
        distinct_keys(counts),
    ensures
        child_in(counts.dom(), label) == child_label(counts, label),
{
    if exists|k: Seq<char>| counts.contains_key(k) && label_key(k) == label_key(label) {
        let a = child_in(counts.dom(), label);
        let b = child_label(counts, label);
        assert(counts.contains_key(a) && counts.contains_key(b));
    }
}

/// The child an increment for `label` reaches is `label`'s own when no other recorded
/// label value has the same key.
pub proof fn lemma_child_label_without_clash(counts: Map<Seq<char>, nat>, label: Seq<char>)
    requires
        forall|k: Seq<char>| counts.contains_key(k) && label_key(k) == label_key(label) ==> k == label,
    ensures
        child_label(counts, label) == label,
{
}

/// The counts after the increments for each label value of `events`, in order.
pub open spec fn bump_all(counts: Map<Seq<char>, nat>, events: Seq<Seq<char>>) -> Map<Seq<char>, nat>
    decreases events.len(),
{
    if events.len() == 0 {
        counts
    } else {
        bump_all(bump(counts, child_label(counts, events[0])), events.drop_first())
    }
}

/// How many times `key` occurs in `events`.
pub open spec fn occurrences(events: Seq<Seq<char>>, key: Seq<char>) -> nat
    decreases events.len(),
{
    if events.len() == 0 {
        0
    } else {
        (if events[0] == key { 1nat } else { 0nat }) + occurrences(events.drop_first(), key)
    }
}

/// No two distinct label values among those recorded and those of `events` have the
/// same key.
pub open spec fn no_key_clash(counts: Map<Seq<char>, nat>, events: Seq<Seq<char>>) -> bool {
    forall|a: Seq<char>, b: Seq<char>|
        #![trigger label_key(a), label_key(b)]
        (counts.contains_key(a) || events.contains(a)) && (counts.contains_key(b) || events.contains(b))
            && label_key(a) == label_key(b) ==> a == b
}

/// However the devices' answers are interleaved, after a round of scrapes (or of
/// failures) each device's count has grown by exactly the number of events recorded
/// for it, as long as no two device names share a key.
pub proof fn counts_grow_by_occurrences(counts: Map<Seq<char>, nat>, events: Seq<Seq<char>>, key: Seq<char>)
    requires
        no_key_clash(counts, events),
    ensures
        count_of(bump_all(counts, events), key) == count_of(counts, key) + occurrences(events, key),
    decreases events.len(),
{
    if events.len() > 0 {
        let e = events[0];
        assert(events.contains(e));
        assert forall|k: Seq<char>| counts.contains_key(k) && label_key(k) == label_key(e) implies k == e by {
            assert(label_key(k) == label_key(e));
        }
        lemma_child_label_without_clash(counts, e);
        let next = bump(counts, e);
        let rest = events.drop_first();
        assert forall|a: Seq<char>, b: Seq<char>|
            (next.contains_key(a) || rest.contains(a)) && (next.contains_key(b) || rest.contains(b))
                && label_key(a) == label_key(b) implies a == b by {
            if rest.contains(a) {
                let ia = choose|ia: int| 0 <= ia < rest.len() && rest[ia] == a;
                assert(events[ia + 1] == a);
            }
            if rest.contains(b) {
                let ib = choose|ib: int| 0 <= ib < rest.len() && rest[ib] == b;
                assert(events[ib + 1] == b);
            }
            assert(label_key(a) == label_key(b));
        }
        counts_grow_by_occurrences(next, rest, key);
    }
}

/// No two metrics of the exporter share a name.
pub proof fn metric_names_distinct()
    ensures
        forall|a: GaugeKind, b: GaugeKind| a != b ==> gauge_name(a) != gauge_name(b),
        forall|a: CounterKind, b: CounterKind| a != b ==> counter_name(a) != counter_name(b),
        forall|a: GaugeKind, b: CounterKind| gauge_name(a) != counter_name(b),
{
        reveal_strlit("awair_score");
        reveal_strlit("awair_dew_point_celsius");
        reveal_strlit("awair_temperature_celcius");
        reveal_strlit("awair_humidity_ratio");
        reveal_strlit("awair_absolute_humidity");
        reveal_strlit("awair_co2_ppm");
        reveal_strlit("awair_co2_est");
        reveal_strlit("awair_co2_est_baseline");
        reveal_strlit("awair_voc_ppb");
        reveal_strlit("awair_voc_baseline");
        reveal_strlit("awair_voc_h2_raw");
        reveal_strlit("awair_voc_ethanol_raw");
        reveal_strlit("awair_pm25");
        reveal_strlit("awair_pm25_est");
        reveal_strlit("awair_scraped_total");
        reveal_strlit("awair_scrape_failed_total");
        assert("awair_score"@.len() == 11);
        assert("awair_dew_point_celsius"@.len() == 23);
        assert("awair_temperature_celcius"@.len() == 25);
        assert("awair_humidity_ratio"@.len() == 20);
        assert("awair_absolute_humidity"@.len() == 23);
        assert("awair_co2_ppm"@.len() == 13);
        assert("awair_co2_est"@.len() == 13);
        assert("awair_co2_est_baseline"@.len() == 22);
        assert("awair_voc_ppb"@.len() == 13);
        assert("awair_voc_baseline"@.len() == 18);
        assert("awair_voc_h2_raw"@.len() == 16);
        assert("awair_voc_ethanol_raw"@.len() == 21);
        assert("awair_pm25"@.len() == 10);
        assert("awair_pm25_est"@.len() == 14);
        assert("awair_scraped_total"@.len() == 19);
        assert("awair_scrape_failed_total"@.len() == 25);
        assert("awair_dew_point_celsius"@[6] != "awair_absolute_humidity"@[6]);
        assert("awair_temperature_celcius"@[6] != "awair_scrape_failed_total"@[6]);
        assert("awair_co2_ppm"@[10] != "awair_co2_est"@[10]);
        assert("awair_co2_ppm"@[6] != "awair_voc_ppb"@[6]);
        assert("awair_co2_est"@[6] != "awair_voc_ppb"@[6]);
}

/// Every metric of the exporter is published under a valid Prometheus metric name.
pub proof fn metric_names_valid()
    ensures
        forall|k: GaugeKind| valid_metric_name(#[trigger] gauge_name(k)),
        forall|k: CounterKind| valid_metric_name(#[trigger] counter_name(k)),
{
    reveal_with_fuel(metric_name_chars_from, 26);
    reveal_strlit("awair_score");
    reveal_strlit("awair_dew_point_celsius");
    reveal_strlit("awair_temperature_celcius");
    reveal_strlit("awair_humidity_ratio");
    reveal_strlit("awair_absolute_humidity");
    reveal_strlit("awair_co2_ppm");
    reveal_strlit("awair_co2_est");
    reveal_strlit("awair_co2_est_baseline");
    reveal_strlit("awair_voc_ppb");
    reveal_strlit("awair_voc_baseline");
    reveal_strlit("awair_voc_h2_raw");
    reveal_strlit("awair_voc_ethanol_raw");
    reveal_strlit("awair_pm25");
    reveal_strlit("awair_pm25_est");
    reveal_strlit("awair_scraped_total");
    reveal_strlit("awair_scrape_failed_total");
    assert("awair_score"@.len() == 11);
    assert("awair_dew_point_celsius"@.len() == 23);
    assert("awair_temperature_celcius"@.len() == 25);
    assert("awair_humidity_ratio"@.len() == 20);
    assert("awair_absolute_humidity"@.len() == 23);
    assert("awair_co2_ppm"@.len() == 13);
    assert("awair_co2_est"@.len() == 13);
    assert("awair_co2_est_baseline"@.len() == 22);
    assert("awair_voc_ppb"@.len() == 13);
    assert("awair_voc_baseline"@.len() == 18);
    assert("awair_voc_h2_raw"@.len() == 16);
    assert("awair_voc_ethanol_raw"@.len() == 21);
    assert("awair_pm25"@.len() == 10);
    assert("awair_pm25_est"@.len() == 14);
    assert("awair_scraped_total"@.len() == 19);
    assert("awair_scrape_failed_total"@.len() == 25);
    assert(valid_metric_name("awair_score"@));
    assert(valid_metric_name("awair_dew_point_celsius"@));
    assert(valid_metric_name("awair_temperature_celcius"@));
    assert(valid_metric_name("awair_humidity_ratio"@));
    assert(valid_metric_name("awair_absolute_humidity"@));
    assert(valid_metric_name("awair_co2_ppm"@));
    assert(valid_metric_name("awair_co2_est"@));
    assert(valid_metric_name("awair_co2_est_baseline"@));
    assert(valid_metric_name("awair_voc_ppb"@));
    assert(valid_metric_name("awair_voc_baseline"@));
    assert(valid_metric_name("awair_voc_h2_raw"@));
    assert(valid_metric_name("awair_voc_ethanol_raw"@));
    assert(valid_metric_name("awair_pm25"@));
    assert(valid_metric_name("awair_pm25_est"@));
    assert(valid_metric_name("awair_scraped_total"@));
    assert(valid_metric_name("awair_scrape_failed_total"@));
}


/// Every metric of the exporter has a non-empty help text.
pub proof fn table_helps_nonempty()
    ensures
        forall|i: int| 0 <= i < 16 ==> #[trigger] table_help(i).len() > 0,
{
    reveal_strlit("Awair Score (0-100)");
    reveal_strlit("The temperature at which water will condense and form into dew");
    reveal_strlit("Dry bulb temperature");
    reveal_strlit("Relative Humidity");
    reveal_strlit("Absolute humidity g/m^3");
    reveal_strlit("Carbon Dioxide ppm");
    reveal_strlit("Estimated Carbon Dioxide (ppm - calculated by the TVOC sensor)");
    reveal_strlit("A unitless value that represents the baseline from which the TVOC sensor partially derives its estimated (e)CO2output.");
    reveal_strlit("Total Volatile Organic Compounds");
    reveal_strlit("A unitless value that represents the baseline from which the TVOC sensor partially derives its TVOC output");
    reveal_strlit("A unitless value that represents the Hydrogen gas signal from which the TVOC sensor partially derives its TVOC output");
    reveal_strlit("A unitless value that represents the Ethanol gas signal from which the TVOC sensor partially derives its TVOC output");
    reveal_strlit("Particulate matter less than 2.5 microns in diameter (µg/m^3)");
    reveal_strlit("Estimated particulate matter less than 10 microns in diameter (µg/m^3 - calculated by the PM2.5 sensor)");
    reveal_strlit("The number of times the Awair has been scraped so far");
    reveal_strlit("The number of times requests to Awair failed so far");
    assert("Awair Score (0-100)"@.len() == 19);
    assert("The temperature at which water will condense and form into dew"@.len() == 62);
    assert("Dry bulb temperature"@.len() == 20);
    assert("Relative Humidity"@.len() == 17);
    assert("Absolute humidity g/m^3"@.len() == 23);
    assert("Carbon Dioxide ppm"@.len() == 18);
    assert("Estimated Carbon Dioxide (ppm - calculated by the TVOC sensor)"@.len() == 62);
    assert("A unitless value that represents the baseline from which the TVOC sensor partially derives its estimated (e)CO2output."@.len() == 118);
    assert("Total Volatile Organic Compounds"@.len() == 32);
    assert("A unitless value that represents the baseline from which the TVOC sensor partially derives its TVOC output"@.len() == 106);
    assert("A unitless value that represents the Hydrogen gas signal from which the TVOC sensor partially derives its TVOC output"@.len() == 117);
    assert("A unitless value that represents the Ethanol gas signal from which the TVOC sensor partially derives its TVOC output"@.len() == 116);
    assert("Particulate matter less than 2.5 microns in diameter (µg/m^3)"@.len() == 61);
    assert("Estimated particulate matter less than 10 microns in diameter (µg/m^3 - calculated by the PM2.5 sensor)"@.len() == 103);
    assert("The number of times the Awair has been scraped so far"@.len() == 53);
    assert("The number of times requests to Awair failed so far"@.len() == 51);
}

/// `ids_through` adds exactly the descriptor ids of the first `n` entries.
pub proof fn lemma_ids_through(
    ns: Seq<char>,
    ss: Seq<char>,
    cl: Map<Seq<char>, Seq<char>>,
    ids: Set<u64>,
    n: int,
    x: u64,
)
    requires
        0 <= n,
    ensures
        ids_through(ns, ss, cl, ids, n).contains(x) <==> (ids.contains(x) || exists|j: int|
            0 <= j < n && #[trigger] entry_id(ns, ss, cl, j) == x),
    decreases n,
{
    if n > 0 {
        lemma_ids_through(ns, ss, cl, ids, n - 1, x);
        if entry_id(ns, ss, cl, n - 1) == x {
            assert(0 <= n - 1 < n && entry_id(ns, ss, cl, n - 1) == x);
        }
        if exists|j: int| 0 <= j < n && #[trigger] entry_id(ns, ss, cl, j) == x {
            let j = choose|j: int| 0 <= j < n && #[trigger] entry_id(ns, ss, cl, j) == x;
            if j < n - 1 {
                assert(0 <= j < n - 1 && entry_id(ns, ss, cl, j) == x);
            }
        }
    }
}

/// The names recorded by `dims_through` are those `names_through` adds.
pub proof fn lemma_dims_names(
    ns: Seq<char>,
    ss: Seq<char>,
    cl: Map<Seq<char>, Seq<char>>,
    dims: Map<Seq<char>, u64>,
    n: int,
)
    requires
        0 <= n,
    ensures
        dims_through(ns, ss, cl, dims, n).dom() == names_through(ns, ss, dims.dom(), n),
    decreases n,
{
    if n > 0 {
        lemma_dims_names(ns, ss, cl, dims, n - 1);
        assert(dims_through(ns, ss, cl, dims, n).dom() =~= names_through(ns, ss, dims.dom(), n));
    }
}

/// Where the whole table can be registered in an empty registry, the first `n` entries
/// have `n` different names.
pub proof fn lemma_registrable_names_count(ns: Seq<char>, ss: Seq<char>, cl: Map<Seq<char>, Seq<char>>, n: int)
    requires
        0 <= n <= 16,
        table_registrable(ns, ss, cl, Set::<u64>::empty(), Map::<Seq<char>, u64>::empty()),
    ensures
        names_through(ns, ss, Set::<Seq<char>>::empty(), n).finite(),
        names_through(ns, ss, Set::<Seq<char>>::empty(), n).len() == n,
    decreases n,
{
    if n > 0 {
        lemma_registrable_names_count(ns, ss, cl, n - 1);
        let e = Set::<Seq<char>>::empty();
        let fq = table_fq(ns, ss, n - 1);
        lemma_names_through(ns, ss, e, n - 1, fq);
        if names_through(ns, ss, e, n - 1).contains(fq) {
            let j = choose|j: int| 0 <= j < n - 1 && #[trigger] table_fq(ns, ss, j) == fq;
            assert(entry_id(ns, ss, cl, j) == entry_id(ns, ss, cl, n - 1));
            lemma_ids_through(ns, ss, cl, Set::<u64>::empty(), n - 1, entry_id(ns, ss, cl, n - 1));
            assert(entry_registrable_after(ns, ss, cl, Set::<u64>::empty(), Map::<Seq<char>, u64>::empty(), n - 1));
        }
    }
}

/// The whole table can be registered in a registry holding the descriptor ids `ids` and
/// no name exactly when every name under the options and every constant label's name
/// is valid, no entry's descriptor id is among `ids`, and the 16 descriptor ids differ
/// from one another.
pub proof fn table_registrable_iff(ns: Seq<char>, ss: Seq<char>, cl: Map<Seq<char>, Seq<char>>, ids: Set<u64>)
    ensures
        table_registrable(ns, ss, cl, ids, Map::<Seq<char>, u64>::empty()) <==> {
            &&& forall|i: int| 0 <= i < 16 ==> valid_metric_name(#[trigger] table_fq(ns, ss, i))
            &&& valid_const_labels(cl)
            &&& forall|i: int| 0 <= i < 16 ==> !ids.contains(#[trigger] entry_id(ns, ss, cl, i))
            &&& forall|i: int, j: int|
                0 <= j < i < 16 ==> #[trigger] entry_id(ns, ss, cl, j) != #[trigger] entry_id(ns, ss, cl, i)
        },
{
    let d0 = Map::<Seq<char>, u64>::empty();
    table_helps_nonempty();
    if table_registrable(ns, ss, cl, ids, d0) {
        assert forall|i: int, j: int|
            0 <= j < i < 16 implies #[trigger] entry_id(ns, ss, cl, j) != #[trigger] entry_id(ns, ss, cl, i) by {
            assert(entry_registrable_after(ns, ss, cl, ids, d0, i));
            lemma_ids_through(ns, ss, cl, ids, i, entry_id(ns, ss, cl, i));
        }
        assert forall|i: int| 0 <= i < 16 implies valid_metric_name(#[trigger] table_fq(ns, ss, i)) by {
            assert(entry_registrable_after(ns, ss, cl, ids, d0, i));
        }
        assert forall|i: int| 0 <= i < 16 implies !ids.contains(#[trigger] entry_id(ns, ss, cl, i)) by {
            assert(entry_registrable_after(ns, ss, cl, ids, d0, i));
            lemma_ids_through(ns, ss, cl, ids, i, entry_id(ns, ss, cl, i));
        }
        assert(entry_registrable_after(ns, ss, cl, ids, d0, 0));
    }
    if {
        &&& forall|i: int| 0 <= i < 16 ==> valid_metric_name(#[trigger] table_fq(ns, ss, i))
        &&& valid_const_labels(cl)
        &&& forall|i: int| 0 <= i < 16 ==> !ids.contains(#[trigger] entry_id(ns, ss, cl, i))
        &&& forall|i: int, j: int|
            0 <= j < i < 16 ==> #[trigger] entry_id(ns, ss, cl, j) != #[trigger] entry_id(ns, ss, cl, i)
    } {
        assert forall|i: int| 0 <= i < 16 implies #[trigger] entry_registrable_after(ns, ss, cl, ids, d0, i) by {
            assert(table_help(i).len() > 0);
            let x = entry_id(ns, ss, cl, i);
            lemma_ids_through(ns, ss, cl, ids, i, x);
            if ids_through(ns, ss, cl, ids, i).contains(x) {
                let j = choose|j: int| 0 <= j < i && #[trigger] entry_id(ns, ss, cl, j) == x;
                assert(entry_id(ns, ss, cl, j) != entry_id(ns, ss, cl, i));
            }
            let fq = table_fq(ns, ss, i);
            lemma_dims_names(ns, ss, cl, d0, i);
            assert(d0.dom() =~= Set::<Seq<char>>::empty());
            lemma_names_through(ns, ss, Set::<Seq<char>>::empty(), i, fq);
            if dims_through(ns, ss, cl, d0, i).contains_key(fq) {
                let j = choose|j: int| 0 <= j < i && #[trigger] table_fq(ns, ss, j) == fq;
                assert(entry_id(ns, ss, cl, j) == entry_id(ns, ss, cl, i));
            }
        }
    }
}

/// Under empty options every name is the table's own, which is valid: so `Registry::new`
/// with empty options succeeds exactly when the 16 names' descriptor ids differ.
pub proof fn default_options_registrable_iff_ids_distinct()
    ensures
        table_registrable(
            Seq::empty(),
            Seq::empty(),
            Map::<Seq<char>, Seq<char>>::empty(),
            Set::<u64>::empty(),
            Map::<Seq<char>, u64>::empty(),
        ) <==> forall|i: int, j: int|
            0 <= j < i < 16 ==> descriptor_id(#[trigger] table_name(j), Map::<Seq<char>, Seq<char>>::empty())
                != descriptor_id(#[trigger] table_name(i), Map::<Seq<char>, Seq<char>>::empty()),
{
    let e = Seq::<char>::empty();
    let cl = Map::<Seq<char>, Seq<char>>::empty();
    metric_names_valid();
    table_registrable_iff(e, e, cl, Set::<u64>::empty());
    assert forall|i: int| 0 <= i < 16 implies #[trigger] table_fq(e, e, i) == table_name(i)
        && valid_metric_name(table_name(i)) by {
        if i < 14 {
            assert(valid_metric_name(gauge_name(gauge_at(i))));
        } else if i == 14 {
            assert(valid_metric_name(counter_name(CounterKind::Scraped)));
        } else {
            assert(valid_metric_name(counter_name(CounterKind::Failed)));
        }
    }
    assert forall|i: int| 0 <= i < 16 implies valid_metric_name(#[trigger] table_fq(e, e, i)) by {
        assert(table_fq(e, e, i) == table_name(i));
    }
    assert forall|i: int| 0 <= i < 16 implies #[trigger] entry_id(e, e, cl, i) == descriptor_id(table_name(i), cl) by {
        assert(table_fq(e, e, i) == table_name(i));
    }
    assert(valid_const_labels(cl));
    if forall|i: int, j: int|
        0 <= j < i < 16 ==> descriptor_id(#[trigger] table_name(j), cl) != descriptor_id(#[trigger] table_name(i), cl) {
        assert forall|i: int, j: int|
            0 <= j < i < 16 implies #[trigger] entry_id(e, e, cl, j) != #[trigger] entry_id(e, e, cl, i) by {
            assert(descriptor_id(table_name(j), cl) != descriptor_id(table_name(i), cl));
        }
    }
    if table_registrable(e, e, cl, Set::<u64>::empty(), Map::<Seq<char>, u64>::empty()) {
        assert forall|i: int, j: int|
            0 <= j < i < 16 implies descriptor_id(#[trigger] table_name(j), cl) != descriptor_id(
                #[trigger] table_name(i),
                cl,
            ) by {
            assert(entry_id(e, e, cl, j) != entry_id(e, e, cl, i));
        }
    }
}

} // verus!
