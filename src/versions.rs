//! The versions that a Service's Pods run, read from their `version` label.
use vstd::prelude::*;
use vstd::string::*;
use crate::model::{Pod, PodView, labels_view, opt_string_view, pods_view, strings_view};

verus! {

/// The value of the first entry with key `key`, if any.
pub open spec fn label_value(l: Seq<(Seq<char>, Seq<char>)>, key: Seq<char>) -> Option<Seq<char>>
    decreases l.len(),
{
    if l.len() == 0 {
        None
    } else {
        match label_value(l.drop_last(), key) {
            Some(v) => Some(v),
            None => if l.last().0 == key {
                Some(l.last().1)
            } else {
                None
            },
        }
    }
}

/// The `version` label of each Pod in listing order; Pods without one are left out.
pub open spec fn versions_of(pods: Seq<PodView>) -> Seq<Seq<char>>
    decreases pods.len(),
{
    if pods.len() == 0 {
        seq![]
    } else {
        let init = versions_of(pods.drop_last());
        match label_value(pods.last().labels, "version"@) {
            Some(v) => init.push(v),
            None => init,
        }
    }
}

/// The Pod's `version` label.
pub fn version_label(pod: &Pod) -> (r: Option<String>)
    ensures
        opt_string_view(r) == label_value(pod@.labels, "version"@),
{
    let key = String::from_str("version");
    let mut found: Option<String> = None;
    let mut i: usize = 0;
    while i < pod.labels.len()
        invariant
            0 <= i <= pod.labels@.len(),
            key@ == "version"@,
            opt_string_view(found) == label_value(labels_view(pod.labels@.subrange(0, i as int)), key@),
        decreases pod.labels@.len() - i,
    {
        let ghost prev = labels_view(pod.labels@.subrange(0, i as int));
        if found.is_none() && pod.labels[i].0 == key {
            found = Some(pod.labels[i].1.clone());
        }
        i = i + 1;
        assert(labels_view(pod.labels@.subrange(0, i as int)).drop_last() =~= prev);
    }
    assert(pod.labels@.subrange(0, pod.labels@.len() as int) =~= pod.labels@);
    found
}

/// The versions of the Pods that a Service selects, in listing order,
/// skipping Pods that carry no `version` label.
pub fn svc_versions(pods: &[Pod]) -> (r: Vec<String>)
    ensures
        strings_view(r@) == versions_of(pods_view(pods@)),
{
    let mut out: Vec<String> = Vec::new();
    let mut i: usize = 0;
    while i < pods.len()
        invariant
            0 <= i <= pods@.len(),
            strings_view(out@) =~= versions_of(pods_view(pods@.subrange(0, i as int))),
        decreases pods@.len() - i,
    {
        let ghost before = out@;
        let ghost prev = pods_view(pods@.subrange(0, i as int));
        let v = version_label(&pods[i]);
        match v {
            Some(s) => {
                out.push(s);
                assert(strings_view(out@) =~= strings_view(before).push(s@));
            },
            None => {},
        }
        i = i + 1;
        assert(pods_view(pods@.subrange(0, i as int)).drop_last() =~= prev);
    }
    assert(pods@.subrange(0, pods@.len() as int) =~= pods@);
    out
}

} // verus!
