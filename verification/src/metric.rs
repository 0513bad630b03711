//! The data model and the normalizer: one raw submission expands into zero or
//! more flat single-valued records, metadata shared, payload order preserved.
//!
//! A payload value is carried as the bytes of its JSON text; the pipeline
//! never inspects those bytes, it only moves and frames them.

use vstd::prelude::*;

verus! {

/// Mathematical model of one raw submission.
pub struct SubmissionModel {
    pub time: Option<Seq<u8>>,
    pub host: Option<Seq<char>>,
    pub plugin: Option<Seq<char>>,
    pub plugin_instance: Option<Seq<char>>,
    pub type_: Option<Seq<char>>,
    pub type_instance: Option<Seq<char>>,
    pub value: Option<Seq<u8>>,
    pub values: Option<Seq<Seq<u8>>>,
}

/// Mathematical model of one flat record.
pub struct RecordModel {
    pub time: Option<Seq<u8>>,
    pub host: Option<Seq<char>>,
    pub plugin: Option<Seq<char>>,
    pub plugin_instance: Option<Seq<char>>,
    pub type_: Option<Seq<char>>,
    pub type_instance: Option<Seq<char>>,
    pub value: Seq<u8>,
}

/// One inbound submission: optional metadata, and a payload that is either a
/// single value, an ordered sequence of values, neither, or both (in which
/// case only `values` is honored).
pub struct CollectdMetric {
    /// Epoch time, as the bytes of a JSON number.
    pub time: Option<Vec<u8>>,
    pub host: Option<String>,
    pub plugin: Option<String>,
    pub plugin_instance: Option<String>,
    pub type_: Option<String>,
    pub type_instance: Option<String>,
    /// A single payload value, as the bytes of its JSON text.
    pub value: Option<Vec<u8>>,
    /// An ordered sequence of payload values, each the bytes of its JSON text.
    pub values: Option<Vec<Vec<u8>>>,
}

/// One normalized record: the submission's metadata plus exactly one value.
pub struct ProcessedMetric {
    pub time: Option<Vec<u8>>,
    pub host: Option<String>,
    pub plugin: Option<String>,
    pub plugin_instance: Option<String>,
    pub type_: Option<String>,
    pub type_instance: Option<String>,
    /// The single payload value, as the bytes of its JSON text.
    pub value: Vec<u8>,
}

pub open spec fn opt_bytes_view(o: Option<Vec<u8>>) -> Option<Seq<u8>> {
    match o {
        Some(v) => Some(v@),
        None => None,
    }
}

pub open spec fn opt_string_view(o: Option<String>) -> Option<Seq<char>> {
    match o {
        Some(s) => Some(s@),
        None => None,
    }
}

impl View for CollectdMetric {
    type V = SubmissionModel;

    open spec fn view(&self) -> SubmissionModel {
        SubmissionModel {
            time: opt_bytes_view(self.time),
            host: opt_string_view(self.host),
            plugin: opt_string_view(self.plugin),
            plugin_instance: opt_string_view(self.plugin_instance),
            type_: opt_string_view(self.type_),
            type_instance: opt_string_view(self.type_instance),
            value: opt_bytes_view(self.value),
            values: match self.values {
                Some(vs) => Some(vs@.map_values(|v: Vec<u8>| v@)),
                None => None,
            },
        }
    }
}

impl View for ProcessedMetric {
    type V = RecordModel;

    open spec fn view(&self) -> RecordModel {
        RecordModel {
            time: opt_bytes_view(self.time),
            host: opt_string_view(self.host),
            plugin: opt_string_view(self.plugin),
            plugin_instance: opt_string_view(self.plugin_instance),
            type_: opt_string_view(self.type_),
            type_instance: opt_string_view(self.type_instance),
            value: self.value@,
        }
    }
}

/// The payload a submission resolves to: `values` when present (it takes
/// precedence over `value`), else the single `value`, else nothing.
pub open spec fn payload(s: SubmissionModel) -> Seq<Seq<u8>> {
    match s.values {
        Some(vs) => vs,
        None => match s.value {
            Some(v) => seq![v],
            None => Seq::empty(),
        },
    }
}

/// The record that carries submission `s`'s metadata and payload value `v`.
pub open spec fn meta_record(s: SubmissionModel, v: Seq<u8>) -> RecordModel {
    RecordModel {
        time: s.time,
        host: s.host,
        plugin: s.plugin,
        plugin_instance: s.plugin_instance,
        type_: s.type_,
        type_instance: s.type_instance,
        value: v,
    }
}

/// The full normalization of one submission: one record per payload value,
/// in payload order.
pub open spec fn flat_records(s: SubmissionModel) -> Seq<RecordModel> {
    payload(s).map_values(|v: Seq<u8>| meta_record(s, v))
}

/// The normalization of a whole request body: each submission's records, in
/// submission order.
pub open spec fn flat_records_all(subs: Seq<SubmissionModel>) -> Seq<RecordModel>
    decreases subs.len(),
{
    if subs.len() == 0 {
        Seq::empty()
    } else {
        flat_records(subs[0]) + flat_records_all(subs.drop_first())
    }
}

/// The view of a submission sequence, submission by submission.
pub open spec fn submissions_view(s: Seq<CollectdMetric>) -> Seq<SubmissionModel> {
    s.map_values(|m: CollectdMetric| m@)
}

/// Copies a byte vector; the copy holds the same bytes.
pub fn copy_bytes(v: &Vec<u8>) -> (r: Vec<u8>)
    ensures
        r@ == v@,
{
    let mut r: Vec<u8> = Vec::new();
    let n: usize = v.len();
    for i in 0..n
        invariant
            n == v@.len(),
            r@ == v@.take(i as int),
    {
        r.push(v[i]);
        proof {
            assert(r@ =~= v@.take(i + 1 as int));
        }
    }
    proof {
        assert(v@.take(n as int) =~= v@);
    }
    r
}

fn copy_opt_bytes(o: &Option<Vec<u8>>) -> (r: Option<Vec<u8>>)
    ensures
        opt_bytes_view(r) == opt_bytes_view(*o),
{
    match o {
        Some(v) => Some(copy_bytes(v)),
        None => None,
    }
}

fn copy_opt_string(o: &Option<String>) -> (r: Option<String>)
    ensures
        opt_string_view(r) == opt_string_view(*o),
{
    match o {
        Some(s) => Some(s.clone()),
        None => None,
    }
}

/// Normalizes one submission into its flat records: `values` is honored when
/// present, else the single `value`, else the submission is silently dropped.
pub fn process_metric(metric: CollectdMetric) -> (r: Vec<ProcessedMetric>)
    ensures
        r@.len() == flat_records(metric@).len(),
        forall|i: int| 0 <= i < r@.len() ==> r@[i]@ == flat_records(metric@)[i],
{
    let ghost m = metric@;
    let CollectdMetric { time, host, plugin, plugin_instance, type_, type_instance, value, values } =
        metric;
    let mut processed: Vec<ProcessedMetric> = Vec::new();

    let vals: Vec<Vec<u8>> = match values {
        Some(values_array) => values_array,
        None => match value {
            Some(single_value) => {
                let mut one: Vec<Vec<u8>> = Vec::new();
                one.push(single_value);
                one
            },
            None => {
                return processed;
            },
        },
    };
    proof {
        assert(vals@.map_values(|v: Vec<u8>| v@) =~= payload(m));
    }

    let n: usize = vals.len();
    for idx in 0..n
        invariant
            n == vals@.len(),
            vals@.map_values(|v: Vec<u8>| v@) == payload(m),
            opt_bytes_view(time) == m.time,
            opt_string_view(host) == m.host,
            opt_string_view(plugin) == m.plugin,
            opt_string_view(plugin_instance) == m.plugin_instance,
            opt_string_view(type_) == m.type_,
            opt_string_view(type_instance) == m.type_instance,
            processed@.len() == idx,
            forall|j: int| 0 <= j < idx ==> processed@[j]@ == flat_records(m)[j],
    {
        let rec = ProcessedMetric {
            time: copy_opt_bytes(&time),
            host: copy_opt_string(&host),
            plugin: copy_opt_string(&plugin),
            plugin_instance: copy_opt_string(&plugin_instance),
            type_: copy_opt_string(&type_),
            type_instance: copy_opt_string(&type_instance),
            value: copy_bytes(&vals[idx]),
        };
        proof {
            assert(payload(m)[idx as int] == vals@.map_values(|v: Vec<u8>| v@)[idx as int]);
            assert(rec@ == meta_record(m, payload(m)[idx as int]));
        }
        processed.push(rec);
    }
    processed
}

/// A submission with a scalar `value` and no `values` normalizes to exactly
/// one record that carries that value and the submission's metadata.
pub proof fn lemma_scalar_value(s: SubmissionModel)
    requires
        s.values is None,
        s.value is Some,
    ensures
        flat_records(s).len() == 1,
        flat_records(s)[0].value == s.value->0,
        flat_records(s)[0].time == s.time,
        flat_records(s)[0].host == s.host,
        flat_records(s)[0].plugin == s.plugin,
        flat_records(s)[0].plugin_instance == s.plugin_instance,
        flat_records(s)[0].type_ == s.type_,
        flat_records(s)[0].type_instance == s.type_instance,
{
}

/// A submission with `values = [v1, ..., vn]` normalizes to exactly n records
/// in order, each carrying the submission's metadata and respectively
/// `v1, ..., vn`.
pub proof fn lemma_values_expansion(s: SubmissionModel)
    requires
        s.values is Some,
    ensures
        flat_records(s).len() == s.values->0.len(),
        forall|i: int| 0 <= i < s.values->0.len() ==> flat_records(s)[i] == meta_record(
            s,
            s.values->0[i],
        ),
        forall|i: int| 0 <= i < s.values->0.len() ==> flat_records(s)[i].value == s.values->0[i],
{
}

/// A submission with neither `value` nor `values` normalizes to no records.
pub proof fn lemma_no_payload(s: SubmissionModel)
    requires
        s.values is None,
        s.value is None,
    ensures
        flat_records(s).len() == 0,
{
}

/// When both `value` and `values` are present, only `values` is honored: the
/// normalization equals that of the same submission with `value` absent.
pub proof fn lemma_values_precedence(s: SubmissionModel)
    requires
        s.values is Some,
    ensures
        flat_records(s) == flat_records(SubmissionModel { value: None, ..s }),
{
    let dropped = SubmissionModel { value: None, ..s };
    assert(payload(s) == payload(dropped));
    assert(flat_records(s) =~= flat_records(dropped));
}

} // verus!
