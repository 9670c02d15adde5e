//! The Prometheus collectors the exporter registers, seen through their contracts.
//!
//! The spec functions with bodies in this file are plain definitions (Prometheus's
//! naming rules, the FNV-1a hash it keys descriptors and children by). The types,
//! the spec functions without a body and the `external_body` functions are trusted:
//! they declare a type of the `prometheus` crate or call into it, and their contracts
//! are read off that crate's source (version 0.13, with `fnv` 1.0).
use vstd::prelude::*;
use vstd::utf8::*;
use prometheus::Registry as PrometheusRegistry;

verus! {

/// `prometheus::Registry`, opaque for Verus.
#[verifier::external_type_specification]
#[verifier::external_body]
pub struct ExPrometheusRegistry(PrometheusRegistry);

/// `prometheus::Error`, opaque for Verus.
#[verifier::external_type_specification]
#[verifier::external_body]
pub struct ExPrometheusError(prometheus::Error);

/// `prometheus::proto::MetricFamily`, opaque for Verus.
#[verifier::external_type_specification]
#[verifier::external_body]
pub struct ExMetricFamily(prometheus::proto::MetricFamily);

/// The type of a metric family, as `prometheus::proto::MetricType` gives it.
#[derive(Debug, Clone, Copy, PartialEq, Eq, Structural)]
pub enum FamilyKind {
    Counter,
    Gauge,
    Summary,
    Untyped,
    Histogram,
}

/// A `prometheus::CounterVec`: counters told apart by the values of their labels.
///
/// Verus cannot be told of `prometheus::CounterVec` itself (its builder type lives in a
/// private module of the crate), so the vector is held here, out of Verus's sight.
#[verifier::external_body]
#[derive(Debug)]
pub struct CounterFamily {
    inner: prometheus::CounterVec,
}

/// A `prometheus::GaugeVec`: gauges told apart by the values of their labels.
///
/// Verus cannot be told of `prometheus::GaugeVec` itself (its builder type lives in a
/// private module of the crate), so the vector is held here, out of Verus's sight.
#[verifier::external_body]
#[derive(Debug)]
pub struct GaugeFamily {
    inner: prometheus::GaugeVec,
}

/// One gauge of a gauge family: a `prometheus::Gauge`, which shares its value with the
/// family. Verus cannot be told of `prometheus::Gauge` (its type parameter is bound by
/// a trait of the crate), so it is held here. Gauge values are floating-point numbers,
/// which the verified code never reads or writes; code outside the library sets them
/// through `gauge`. Which family and label value a handle belongs to is stated through
/// `gauge_family_children`.
#[verifier::external_body]
#[derive(Debug)]
pub struct GaugeChild {
    pub gauge: prometheus::Gauge,
}

// ---- Plain definitions ----

/// FNV-1a (64 bit) of `bytes`, continuing from the state `h`.
pub open spec fn fnv1a_from(h: u64, bytes: Seq<u8>) -> u64
    decreases bytes.len(),
{
    if bytes.len() == 0 {
        h
    } else {
        fnv1a_from(((h ^ (bytes[0] as u64)) * 0x100000001b3) as u64, bytes.drop_first())
    }
}

/// FNV-1a (64 bit) of `bytes`, as `fnv::FnvHasher` computes it.
pub open spec fn fnv1a(bytes: Seq<u8>) -> u64 {
    fnv1a_from(0xcbf29ce484222325, bytes)
}

/// The key under which a vector with one label stores the child for label value `v`.
pub open spec fn label_key(v: Seq<char>) -> u64 {
    fnv1a(encode_utf8(v))
}

/// `a` comes before `b` or equals it in the order of strings (by character, a prefix
/// first).
pub open spec fn name_leq(a: Seq<char>, b: Seq<char>) -> bool
    decreases a.len(),
{
    if a.len() == 0 {
        true
    } else if b.len() == 0 {
        false
    } else if a[0] != b[0] {
        (a[0] as u32) < (b[0] as u32)
    } else {
        name_leq(a.drop_first(), b.drop_first())
    }
}

/// The strings of `names` in order.
pub open spec fn sorted_names(names: Set<Seq<char>>) -> Seq<Seq<char>> {
    names.to_sorted_seq(|a: Seq<char>, b: Seq<char>| name_leq(a, b))
}

/// Each string of `strs` in UTF-8, followed by the separator byte 0xFF.
pub open spec fn separated_bytes(strs: Seq<Seq<char>>) -> Seq<u8> {
    strs.map_values(|s: Seq<char>| encode_utf8(s).push(0xffu8)).flatten()
}

/// The constant labels given as name and value pairs, as a map from name to value; a
/// later pair for a name replaces an earlier one.
pub open spec fn label_map(pairs: Seq<(String, String)>) -> Map<Seq<char>, Seq<char>>
    decreases pairs.len(),
{
    if pairs.len() == 0 {
        Map::empty()
    } else {
        label_map(pairs.drop_last()).insert(pairs.last().0@, pairs.last().1@)
    }
}

/// Every constant label has a valid label name.
pub open spec fn valid_const_labels(consts: Map<Seq<char>, Seq<char>>) -> bool {
    forall|k: Seq<char>| consts.contains_key(k) ==> valid_label_name(k)
}

/// The id of the descriptor of a metric with fully-qualified name `fq` and constant
/// labels `consts`: the hash of the name and of the constant labels' values in the order
/// of their names, each followed by the separator byte 0xFF.
pub open spec fn descriptor_id(fq: Seq<char>, consts: Map<Seq<char>, Seq<char>>) -> u64 {
    fnv1a(
        encode_utf8(fq).push(0xffu8) + separated_bytes(
            sorted_names(consts.dom()).map_values(|k: Seq<char>| consts[k]),
        ),
    )
}

/// The hash of the dimensions of a descriptor with help text `help`, constant labels
/// `consts` and variable labels `labels`: of the help text, then of the label names in
/// order (each variable one behind a `$`), each followed by the separator byte 0xFF.
/// Descriptors registered under one name must agree on it.
pub open spec fn dim_hash(help: Seq<char>, consts: Map<Seq<char>, Seq<char>>, labels: Seq<Seq<char>>) -> u64 {
    fnv1a(
        encode_utf8(help).push(0xffu8) + separated_bytes(
            sorted_names(consts.dom().union(labels.to_set().map(|l: Seq<char>| "$"@ + l))),
        ),
    )
}

/// The fully-qualified name built from a namespace, a subsystem and a name: the
/// non-empty ones joined by `_`, and empty if the name is.
pub open spec fn fq_name(namespace: Seq<char>, subsystem: Seq<char>, name: Seq<char>) -> Seq<char> {
    if name.len() == 0 {
        Seq::empty()
    } else if namespace.len() > 0 && subsystem.len() > 0 {
        namespace + "_"@ + subsystem + "_"@ + name
    } else if namespace.len() > 0 {
        namespace + "_"@ + name
    } else if subsystem.len() > 0 {
        subsystem + "_"@ + name
    } else {
        name
    }
}

/// An ASCII letter.
pub open spec fn ascii_letter(c: char) -> bool {
    ('a' <= c && c <= 'z') || ('A' <= c && c <= 'Z')
}

/// A character that may start a Prometheus metric name: an ASCII letter, `_` or `:`.
pub open spec fn metric_name_start_char(c: char) -> bool {
    ascii_letter(c) || c == '_' || c == ':'
}

/// A character that may follow in a Prometheus metric name: those that may start one,
/// and the ASCII digits.
pub open spec fn metric_name_char(c: char) -> bool {
    metric_name_start_char(c) || ('0' <= c && c <= '9')
}

/// Every character of `s` from index `i` on may follow in a metric name.
pub open spec fn metric_name_chars_from(s: Seq<char>, i: int) -> bool
    decreases s.len() - i,
{
    if i < 0 || i >= s.len() {
        true
    } else {
        metric_name_char(s[i]) && metric_name_chars_from(s, i + 1)
    }
}

/// `s` is a valid Prometheus metric name (`[a-zA-Z_:][a-zA-Z0-9_:]*`).
pub open spec fn valid_metric_name(s: Seq<char>) -> bool {
    s.len() > 0 && metric_name_start_char(s[0]) && metric_name_chars_from(s, 1)
}

/// Every character of `s` from index `i` on may follow in a label name.
pub open spec fn label_name_chars_from(s: Seq<char>, i: int) -> bool
    decreases s.len() - i,
{
    if i < 0 || i >= s.len() {
        true
    } else {
        (ascii_letter(s[i]) || s[i] == '_' || ('0' <= s[i] && s[i] <= '9'))
            && label_name_chars_from(s, i + 1)
    }
}

/// `s` is a valid Prometheus label name (`[a-zA-Z_][a-zA-Z0-9_]*`).
pub open spec fn valid_label_name(s: Seq<char>) -> bool {
    s.len() > 0 && (ascii_letter(s[0]) || s[0] == '_') && label_name_chars_from(s, 1)
}

/// The count of `key` in `counts`, zero where the key is absent.
pub open spec fn count_of(counts: Map<Seq<char>, nat>, key: Seq<char>) -> nat {
    if counts.contains_key(key) {
        counts[key]
    } else {
        0
    }
}

/// `counts` with the count of `key` raised by one.
pub open spec fn bump(counts: Map<Seq<char>, nat>, key: Seq<char>) -> Map<Seq<char>, nat> {
    counts.insert(key, count_of(counts, key) + 1)
}

/// No two label values recorded in `counts` have the same key.
pub open spec fn distinct_keys(counts: Map<Seq<char>, nat>) -> bool {
    forall|a: Seq<char>, b: Seq<char>|
        #![trigger counts.contains_key(a), counts.contains_key(b)]
        counts.contains_key(a) && counts.contains_key(b) && label_key(a) == label_key(b) ==> a == b
}

/// The label value whose child an increment for `label` reaches: the recorded value
/// with the same key, if there is one, else `label` itself.
pub open spec fn child_label(counts: Map<Seq<char>, nat>, label: Seq<char>) -> Seq<char> {
    if exists|k: Seq<char>| counts.contains_key(k) && label_key(k) == label_key(label) {
        choose|k: Seq<char>| counts.contains_key(k) && label_key(k) == label_key(label)
    } else {
        label
    }
}

/// No two label values in `keys` have the same key.
pub open spec fn distinct_key_set(keys: Set<Seq<char>>) -> bool {
    forall|a: Seq<char>, b: Seq<char>|
        #![trigger keys.contains(a), keys.contains(b)]
        keys.contains(a) && keys.contains(b) && label_key(a) == label_key(b) ==> a == b
}

/// The label value of the child that a lookup of `label` reaches among children created
/// with the label values `keys`: the one with the same key, if any, else `label` itself.
pub open spec fn child_in(keys: Set<Seq<char>>, label: Seq<char>) -> Seq<char> {
    if exists|k: Seq<char>| keys.contains(k) && label_key(k) == label_key(label) {
        choose|k: Seq<char>| keys.contains(k) && label_key(k) == label_key(label)
    } else {
        label
    }
}

/// Every count is small enough (at most 2^53) to be held exactly by the counter's
/// floating-point value.
pub open spec fn counts_exact(counts: Map<Seq<char>, nat>) -> bool {
    forall|k: Seq<char>| counts.contains_key(k) ==> counts[k] <= 0x20000000000000nat
}

// ---- Names ----

/// How many increments each child of a counter family has received, by the label
/// value the child was created with. Children are stored under `label_key` of their
/// label value; an increment for a label value whose key a child already has reaches
/// that child.
pub uninterp spec fn counter_family_counts(c: CounterFamily) -> Map<Seq<char>, nat>;

/// The constant labels a counter family was created with.
pub uninterp spec fn counter_family_consts(c: CounterFamily) -> Map<Seq<char>, Seq<char>>;

/// The label names a counter family was created with.
pub uninterp spec fn counter_family_labels(c: CounterFamily) -> Seq<Seq<char>>;

/// The fully-qualified name of a counter family.
pub uninterp spec fn counter_family_fq_name(c: CounterFamily) -> Seq<char>;

/// The help text of a counter family.
pub uninterp spec fn counter_family_help(c: CounterFamily) -> Seq<char>;

/// The constant labels a gauge family was created with.
pub uninterp spec fn gauge_family_consts(g: GaugeFamily) -> Map<Seq<char>, Seq<char>>;

/// The label names a gauge family was created with.
pub uninterp spec fn gauge_family_labels(g: GaugeFamily) -> Seq<Seq<char>>;

/// The fully-qualified name of a gauge family.
pub uninterp spec fn gauge_family_fq_name(g: GaugeFamily) -> Seq<char>;

/// The help text of a gauge family.
pub uninterp spec fn gauge_family_help(g: GaugeFamily) -> Seq<char>;

/// The children of a gauge family, by the label value each was created with: the
/// gauge of each, as a handle that shares its value with the family (handles of one
/// child are clones of one `Arc`).
pub uninterp spec fn gauge_family_children(g: GaugeFamily) -> Map<Seq<char>, GaugeChild>;

/// The label values the children of a gauge family were created with.
pub open spec fn gauge_child_labels(g: GaugeFamily) -> Set<Seq<char>> {
    gauge_family_children(g).dom()
}

/// The dimension hash recorded for each fully-qualified name registered in a registry.
pub uninterp spec fn registry_dims(r: PrometheusRegistry) -> Map<Seq<char>, u64>;

/// The fully-qualified names registered in a registry.
pub open spec fn registry_names(r: PrometheusRegistry) -> Set<Seq<char>> {
    registry_dims(r).dom()
}

/// The number of collectors registered in a registry.
pub uninterp spec fn registry_size(r: PrometheusRegistry) -> nat;

/// The descriptor ids registered in a registry.
pub uninterp spec fn registry_ids(r: PrometheusRegistry) -> Set<u64>;

/// The registry holds only counter and gauge families created by `counter_family_new`
/// and `gauge_family_new` (one descriptor each, with a valid name), registered by
/// `register_counter_family` and `register_gauge_family`.
pub uninterp spec fn registry_is_own(r: PrometheusRegistry) -> bool;

/// The registry holds a clone of the counter family whose current state is `c` (clones
/// share their counters).
pub uninterp spec fn counter_registered(r: PrometheusRegistry, c: CounterFamily) -> bool;

/// The registry holds a clone of the gauge family whose current state is `g` (clones
/// share their gauges).
pub uninterp spec fn gauge_registered(r: PrometheusRegistry, g: GaugeFamily) -> bool;

/// The name of a metric family (`get_name`).
pub uninterp spec fn family_name(f: prometheus::proto::MetricFamily) -> Seq<char>;

/// The number of metrics a family holds (`get_metric().len()`).
pub uninterp spec fn family_sample_count(f: prometheus::proto::MetricFamily) -> nat;

/// The type of a metric family (`get_field_type`).
pub uninterp spec fn family_kind(f: prometheus::proto::MetricFamily) -> FamilyKind;

/// The value of the label named `name` of metric `j` of a family
/// (`get_metric()[j].get_label()`, the `get_value()` of the first pair with that name;
/// a vector puts the pairs of its variable labels before those of its constant labels
/// and sorts them stably by name, so that is the variable label's where a constant
/// label has the same name).
pub uninterp spec fn family_sample_label(f: prometheus::proto::MetricFamily, j: int, name: Seq<char>) -> Seq<
    char,
>;

/// The counter value of metric `j` of a family (`get_metric()[j].get_counter()
/// .get_value()`), rounded down to a whole number.
pub uninterp spec fn family_sample_value(f: prometheus::proto::MetricFamily, j: int) -> nat;

/// A family of the list named `fq`, if any (gathered families have distinct names).
pub open spec fn family_named(families: Seq<prometheus::proto::MetricFamily>, fq: Seq<char>) -> Option<
    prometheus::proto::MetricFamily,
> {
    if exists|i: int| 0 <= i < families.len() && #[trigger] family_name(families[i]) == fq {
        let i = choose|i: int| 0 <= i < families.len() && #[trigger] family_name(families[i]) == fq;
        Some(families[i])
    } else {
        None
    }
}

/// Metric `j` of family `f` has `v` as the value of its label `name`.
pub open spec fn sample_has_label(f: prometheus::proto::MetricFamily, j: int, name: Seq<char>, v: Seq<char>) -> bool {
    0 <= j < family_sample_count(f) && family_sample_label(f, j, name) == v
}

/// The values of the label `name` of the metrics of family `f`.
pub open spec fn sample_labels(f: prometheus::proto::MetricFamily, name: Seq<char>) -> Set<Seq<char>> {
    Set::new(|v: Seq<char>| exists|j: int| #[trigger] sample_has_label(f, j, name, v))
}

/// In a list of gathered families, the values of the label `label` of the samples of
/// the family named `fq`; empty when no family has that name.
pub open spec fn gauge_sample_labels(
    families: Seq<prometheus::proto::MetricFamily>,
    fq: Seq<char>,
    label: Seq<char>,
) -> Set<Seq<char>> {
    match family_named(families, fq) {
        Some(f) => sample_labels(f, label),
        None => Set::empty(),
    }
}

/// In a list of gathered families, the samples of the counter family named `fq`: for
/// each value of the label `label`, the counter value of the sample with that value;
/// empty when no family has that name.
pub open spec fn counter_samples(
    families: Seq<prometheus::proto::MetricFamily>,
    fq: Seq<char>,
    label: Seq<char>,
) -> Map<Seq<char>, nat> {
    match family_named(families, fq) {
        Some(f) => Map::new(
            |v: Seq<char>| sample_labels(f, label).contains(v),
            |v: Seq<char>| family_sample_value(f, choose|j: int| #[trigger] sample_has_label(f, j, label, v)),
        ),
        None => Map::empty(),
    }
}

// ---- Wrappers ----

/// Calls `prometheus::Registry::new`, which makes a registry with no descriptor.
#[verifier::external_body]
pub(crate) fn registry_new() -> (r: PrometheusRegistry)
    ensures
        registry_ids(r) == Set::<u64>::empty(),
        registry_dims(r) == (Map::<Seq<char>, u64>::empty()),
        registry_size(r) == 0nat,
        registry_is_own(r),
{
    PrometheusRegistry::new()
}

/// Builds `prometheus::Opts::new(name, help)` with the given namespace, subsystem and
/// constant labels (collected into a `HashMap`, where a later pair for a name replaces an
/// earlier one) and calls `prometheus::CounterVec::new` with the single label name
/// `label`. In the crate's source `new` fails exactly when `Desc::new` does: when the
/// help text is empty, the fully-qualified name is not a valid metric name, or the name
/// of a constant label or the label name is not a valid label name. (`Desc::new` keeps
/// variable label names behind a `$`, which no valid label name holds, so they never
/// clash with constant ones.) A new vector holds no child.
#[verifier::external_body]
pub(crate) fn counter_family_new(
    namespace: &str,
    subsystem: &str,
    name: &str,
    help: &str,
    consts: &Vec<(String, String)>,
    label: &str,
) -> (r: Result<CounterFamily, prometheus::Error>)
    ensures
        r is Ok <==> (help@.len() > 0 && valid_metric_name(fq_name(namespace@, subsystem@, name@))
            && valid_const_labels(label_map(consts@)) && valid_label_name(label@)),
        r matches Ok(c) ==> {
            &&& counter_family_counts(c) == Map::<Seq<char>, nat>::empty()
            &&& counter_family_labels(c) == seq![label@]
            &&& counter_family_consts(c) == label_map(consts@)
            &&& counter_family_fq_name(c) == fq_name(namespace@, subsystem@, name@)
            &&& counter_family_help(c) == help@
        },
{
    let opts = prometheus::Opts::new(name, help).namespace(namespace).subsystem(subsystem)
        .const_labels(consts.iter().cloned().collect());
    prometheus::CounterVec::new(opts, &[label]).map(|inner| CounterFamily { inner })
}

/// Builds the options as `counter_family_new` does and calls `prometheus::GaugeVec::new`
/// with the single label name `label`. It fails exactly when `Desc::new` does (see
/// `counter_family_new`).
#[verifier::external_body]
pub(crate) fn gauge_family_new(
    namespace: &str,
    subsystem: &str,
    name: &str,
    help: &str,
    consts: &Vec<(String, String)>,
    label: &str,
) -> (r: Result<GaugeFamily, prometheus::Error>)
    ensures
        r is Ok <==> (help@.len() > 0 && valid_metric_name(fq_name(namespace@, subsystem@, name@))
            && valid_const_labels(label_map(consts@)) && valid_label_name(label@)),
        r matches Ok(g) ==> {
            &&& gauge_family_children(g) == Map::<Seq<char>, GaugeChild>::empty()
            &&& gauge_family_labels(g) == seq![label@]
            &&& gauge_family_consts(g) == label_map(consts@)
            &&& gauge_family_fq_name(g) == fq_name(namespace@, subsystem@, name@)
            &&& gauge_family_help(g) == help@
        },
{
    let opts = prometheus::Opts::new(name, help).namespace(namespace).subsystem(subsystem)
        .const_labels(consts.iter().cloned().collect());
    prometheus::GaugeVec::new(opts, &[label]).map(|inner| GaugeFamily { inner })
}

/// Calls `prometheus::Registry::register` with a clone of the counter vector. In the
/// crate's source a collector with one descriptor is refused exactly when its id is
/// already registered, or when its name is registered with another dimension hash; a
/// refusal changes nothing, an acceptance adds the id, records the name's dimension
/// hash and adds the collector. Families registered before stay registered.
#[verifier::external_body]
pub(crate) fn register_counter_family(r: &mut PrometheusRegistry, c: &CounterFamily) -> (res: Result<
    (),
    prometheus::Error,
>)
    requires
        registry_is_own(*old(r)),
        valid_metric_name(counter_family_fq_name(*c)),
    ensures
        registry_is_own(*final(r)),
        res is Ok <==> (!registry_ids(*old(r)).contains(
            descriptor_id(counter_family_fq_name(*c), counter_family_consts(*c)),
        ) && (registry_dims(*old(r)).contains_key(counter_family_fq_name(*c)) ==> registry_dims(
            *old(r),
        )[counter_family_fq_name(*c)] == dim_hash(
            counter_family_help(*c),
            counter_family_consts(*c),
            counter_family_labels(*c),
        ))),
        res is Ok ==> registry_ids(*final(r)) == registry_ids(*old(r)).insert(
            descriptor_id(counter_family_fq_name(*c), counter_family_consts(*c)),
        ),
        res is Ok ==> registry_dims(*final(r)) == registry_dims(*old(r)).insert(
            counter_family_fq_name(*c),
            dim_hash(counter_family_help(*c), counter_family_consts(*c), counter_family_labels(*c)),
        ),
        res is Ok ==> registry_size(*final(r)) == registry_size(*old(r)) + 1,
        res is Ok ==> counter_registered(*final(r), *c),
        res is Err ==> registry_ids(*final(r)) == registry_ids(*old(r)),
        res is Err ==> registry_dims(*final(r)) == registry_dims(*old(r)),
        res is Err ==> registry_size(*final(r)) == registry_size(*old(r)),
        forall|d: CounterFamily|
            counter_registered(*old(r), d) ==> #[trigger] counter_registered(*final(r), d),
        forall|h: GaugeFamily|
            gauge_registered(*old(r), h) ==> #[trigger] gauge_registered(*final(r), h),
{
    r.register(Box::new(c.inner.clone()))
}

/// Calls `prometheus::Registry::register` with a clone of the gauge vector; what it
/// claims is what `register_counter_family` claims.
#[verifier::external_body]
pub(crate) fn register_gauge_family(r: &mut PrometheusRegistry, g: &GaugeFamily) -> (res: Result<
    (),
    prometheus::Error,
>)
    requires
        registry_is_own(*old(r)),
        valid_metric_name(gauge_family_fq_name(*g)),
    ensures
        registry_is_own(*final(r)),
        res is Ok <==> (!registry_ids(*old(r)).contains(
            descriptor_id(gauge_family_fq_name(*g), gauge_family_consts(*g)),
        ) && (registry_dims(*old(r)).contains_key(gauge_family_fq_name(*g)) ==> registry_dims(
            *old(r),
        )[gauge_family_fq_name(*g)] == dim_hash(
            gauge_family_help(*g),
            gauge_family_consts(*g),
            gauge_family_labels(*g),
        ))),
        res is Ok ==> registry_ids(*final(r)) == registry_ids(*old(r)).insert(
            descriptor_id(gauge_family_fq_name(*g), gauge_family_consts(*g)),
        ),
        res is Ok ==> registry_dims(*final(r)) == registry_dims(*old(r)).insert(
            gauge_family_fq_name(*g),
            dim_hash(gauge_family_help(*g), gauge_family_consts(*g), gauge_family_labels(*g)),
        ),
        res is Ok ==> registry_size(*final(r)) == registry_size(*old(r)) + 1,
        res is Ok ==> gauge_registered(*final(r), *g),
        res is Err ==> registry_ids(*final(r)) == registry_ids(*old(r)),
        res is Err ==> registry_dims(*final(r)) == registry_dims(*old(r)),
        res is Err ==> registry_size(*final(r)) == registry_size(*old(r)),
        forall|d: CounterFamily|
            counter_registered(*old(r), d) ==> #[trigger] counter_registered(*final(r), d),
        forall|h: GaugeFamily|
            gauge_registered(*old(r), h) ==> #[trigger] gauge_registered(*final(r), h),
{
    r.register(Box::new(g.inner.clone()))
}

/// Calls `with_label_values(&[label])` and then `inc` on the counter vector. In the
/// crate's source `with_label_values` panics only when the number of label values
/// differs from the number of label names, which `requires` rules out; it looks the
/// child up by `label_key(label)` and creates it at zero, under that key, if there is
/// none; `inc` adds one to it. A registry holding a clone of the vector sees the change.
#[verifier::external_body]
pub(crate) fn counter_family_inc(c: &mut CounterFamily, label: &str)
    requires
        counter_family_labels(*old(c)).len() == 1,
        distinct_keys(counter_family_counts(*old(c))),
    ensures
        counter_family_counts(*final(c)) == bump(
            counter_family_counts(*old(c)),
            child_label(counter_family_counts(*old(c)), label@),
        ),
        counter_family_labels(*final(c)) == counter_family_labels(*old(c)),
        counter_family_fq_name(*final(c)) == counter_family_fq_name(*old(c)),
        counter_family_help(*final(c)) == counter_family_help(*old(c)),
        counter_family_consts(*final(c)) == counter_family_consts(*old(c)),
        forall|r: PrometheusRegistry|
            counter_registered(r, *old(c)) ==> #[trigger] counter_registered(r, *final(c)),
{
    c.inner.with_label_values(&[label]).inc()
}

/// Calls `prometheus::Registry::gather` on `r`; the families passed are only named by
/// the contract. In the crate's source `gather` collects one family per registered
/// vector, named with its fully-qualified name, and leaves out families with no metric;
/// so every family returned is a counter or gauge family (what `registry_is_own`
/// admits) with a registered name and at least one metric. A registered vector reports
/// one sample per child, labelled with the child's label value: a counter's valued at
/// its count (exact while the counts stay within `counts_exact`). Both are stated of
/// each sample and of the samples of a family as a whole. Every sample also carries the
/// vector's constant labels. A family carries the
/// samples of every registered vector with its name; each vector has one name, and
/// `requires` asks for as many vectors as names, so no two vectors share a name and a
/// family named after one of the passed vectors has one sample per child of that
/// vector.
#[verifier::external_body]
pub(crate) fn registry_gather(
    r: &PrometheusRegistry,
    scraped: &CounterFamily,
    failed: &CounterFamily,
    gauges: &Vec<GaugeFamily>,
) -> (families: Vec<prometheus::proto::MetricFamily>)
    requires
        registry_is_own(*r),
        registry_names(*r).finite(),
        registry_size(*r) == registry_names(*r).len(),
        counter_registered(*r, *scraped),
        counter_registered(*r, *failed),
        forall|i: int| 0 <= i < gauges@.len() ==> gauge_registered(*r, #[trigger] gauges@[i]),
        counter_family_labels(*scraped).len() == 1,
        counter_family_labels(*failed).len() == 1,
        forall|i: int| 0 <= i < gauges@.len() ==> gauge_family_labels(#[trigger] gauges@[i]).len() == 1,
    ensures
        forall|i: int|
            0 <= i < families@.len() ==> {
                &&& (family_kind(#[trigger] families@[i]) == FamilyKind::Counter || family_kind(
                    families@[i],
                ) == FamilyKind::Gauge)
                &&& family_name(families@[i]).len() > 0
                &&& family_sample_count(families@[i]) > 0
                &&& registry_names(*r).contains(family_name(families@[i]))
            },
        counts_exact(counter_family_counts(*scraped)) ==> counter_samples(
            families@,
            counter_family_fq_name(*scraped),
            counter_family_labels(*scraped)[0],
        ) == counter_family_counts(*scraped),
        counts_exact(counter_family_counts(*failed)) ==> counter_samples(
            families@,
            counter_family_fq_name(*failed),
            counter_family_labels(*failed)[0],
        ) == counter_family_counts(*failed),
        forall|i: int|
            0 <= i < gauges@.len() ==> gauge_sample_labels(
                families@,
                gauge_family_fq_name(#[trigger] gauges@[i]),
                gauge_family_labels(gauges@[i])[0],
            ) == gauge_child_labels(gauges@[i]),
        forall|i: int, j: int|
            0 <= i < families@.len() && family_name(families@[i]) == counter_family_fq_name(*scraped)
                && 0 <= j < family_sample_count(families@[i]) ==> {
                &&& counter_family_counts(*scraped).contains_key(
                    #[trigger] family_sample_label(families@[i], j, counter_family_labels(*scraped)[0]),
                )
                &&& counts_exact(counter_family_counts(*scraped)) ==> family_sample_value(families@[i], j)
                    == counter_family_counts(*scraped)[family_sample_label(
                    families@[i],
                    j,
                    counter_family_labels(*scraped)[0],
                )]
            },
        forall|i: int, j: int|
            0 <= i < families@.len() && family_name(families@[i]) == counter_family_fq_name(*failed)
                && 0 <= j < family_sample_count(families@[i]) ==> {
                &&& counter_family_counts(*failed).contains_key(
                    #[trigger] family_sample_label(families@[i], j, counter_family_labels(*failed)[0]),
                )
                &&& counts_exact(counter_family_counts(*failed)) ==> family_sample_value(families@[i], j)
                    == counter_family_counts(*failed)[family_sample_label(
                    families@[i],
                    j,
                    counter_family_labels(*failed)[0],
                )]
            },
        forall|i: int, j: int|
            0 <= i < families@.len() && 0 <= j < gauges@.len() && family_name(#[trigger] families@[i])
                == gauge_family_fq_name(#[trigger] gauges@[j]) ==> family_sample_count(families@[i])
                == gauge_child_labels(gauges@[j]).len(),
        forall|i: int|
            0 <= i < families@.len() && family_name(#[trigger] families@[i]) == counter_family_fq_name(
                *scraped,
            ) ==> family_sample_count(families@[i]) == counter_family_counts(*scraped).dom().len(),
        forall|i: int|
            0 <= i < families@.len() && family_name(#[trigger] families@[i]) == counter_family_fq_name(
                *failed,
            ) ==> family_sample_count(families@[i]) == counter_family_counts(*failed).dom().len(),
        forall|i: int, j: int, n: Seq<char>|
            0 <= i < families@.len() && 0 <= j < family_sample_count(families@[i]) && family_name(
                families@[i],
            ) == counter_family_fq_name(*scraped) && counter_family_consts(*scraped).contains_key(n)
                && n != counter_family_labels(*scraped)[0] ==> #[trigger] family_sample_label(
                families@[i],
                j,
                n,
            ) == counter_family_consts(*scraped)[n],
        forall|i: int, j: int, n: Seq<char>|
            0 <= i < families@.len() && 0 <= j < family_sample_count(families@[i]) && family_name(
                families@[i],
            ) == counter_family_fq_name(*failed) && counter_family_consts(*failed).contains_key(n)
                && n != counter_family_labels(*failed)[0] ==> #[trigger] family_sample_label(
                families@[i],
                j,
                n,
            ) == counter_family_consts(*failed)[n],
        forall|i: int, k: int, j: int, n: Seq<char>|
            0 <= i < families@.len() && 0 <= k < gauges@.len() && 0 <= j < family_sample_count(
                families@[i],
            ) && family_name(families@[i]) == gauge_family_fq_name(#[trigger] gauges@[k])
                && gauge_family_consts(gauges@[k]).contains_key(n) && n != gauge_family_labels(
                gauges@[k],
            )[0] ==> #[trigger] family_sample_label(families@[i], j, n) == gauge_family_consts(
                gauges@[k],
            )[n],
{
    r.gather()
}

/// Calls `with_label_values(&[label])` on the gauge vector. In the crate's source it
/// panics only when the number of label values differs from the number of label names,
/// which `requires` rules out; it returns (a clone of) the child stored under
/// `label_key(label)`, creating it (at zero) if there is none: the child recorded under
/// the label value it was created with. A registry holding a clone of the vector sees
/// the new child.
#[verifier::external_body]
pub(crate) fn gauge_family_child(g: &mut GaugeFamily, label: &str) -> (child: GaugeChild)
    requires
        gauge_family_labels(*old(g)).len() == 1,
        distinct_key_set(gauge_child_labels(*old(g))),
    ensures
        gauge_child_labels(*final(g)) == gauge_child_labels(*old(g)).insert(
            child_in(gauge_child_labels(*old(g)), label@),
        ),
        gauge_family_children(*final(g)) == gauge_family_children(*old(g)).insert(
            child_in(gauge_child_labels(*old(g)), label@),
            child,
        ),
        gauge_family_labels(*final(g)) == gauge_family_labels(*old(g)),
        gauge_family_fq_name(*final(g)) == gauge_family_fq_name(*old(g)),
        gauge_family_help(*final(g)) == gauge_family_help(*old(g)),
        gauge_family_consts(*final(g)) == gauge_family_consts(*old(g)),
        forall|r: PrometheusRegistry|
            gauge_registered(r, *old(g)) ==> #[trigger] gauge_registered(r, *final(g)),
{
    GaugeChild { gauge: g.inner.with_label_values(&[label]) }
}

/// Calls `get_field_type` on the family and tells its variants apart.
#[verifier::external_body]
pub(crate) fn family_kind_of(f: &prometheus::proto::MetricFamily) -> (k: FamilyKind)
    ensures
        k == family_kind(*f),
{
    match f.get_field_type() {
        prometheus::proto::MetricType::COUNTER => FamilyKind::Counter,
        prometheus::proto::MetricType::GAUGE => FamilyKind::Gauge,
        prometheus::proto::MetricType::SUMMARY => FamilyKind::Summary,
        prometheus::proto::MetricType::UNTYPED => FamilyKind::Untyped,
        prometheus::proto::MetricType::HISTOGRAM => FamilyKind::Histogram,
    }
}

/// Calls `get_name` on the family.
#[verifier::external_body]
pub(crate) fn family_name_of(f: &prometheus::proto::MetricFamily) -> (s: &str)
    ensures
        s@ == family_name(*f),
{
    f.get_name()
}

/// Calls `get_metric` on the family and takes the length.
#[verifier::external_body]
pub(crate) fn family_sample_count_of(f: &prometheus::proto::MetricFamily) -> (n: usize)
    ensures
        n == family_sample_count(*f),
{
    f.get_metric().len()
}

} // verus!
