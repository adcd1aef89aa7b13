//! How the deployment tool judges what it finds in the cluster.
use vstd::prelude::*;
use vstd::string::StringExecFns;

verus! {

/// A resource that is not as it is expected: its kind, its name, and what
/// is different.
#[derive(Debug)]
pub struct ResourceDiff {
    pub kind: String,
    pub name: String,
    pub diff: String,
}

/// A [`ResourceDiff`] as mathematical values.
pub ghost struct ResourceDiffView {
    pub kind: Seq<char>,
    pub name: Seq<char>,
    pub diff: Seq<char>,
}

impl View for ResourceDiff {
    type V = ResourceDiffView;

    open spec fn view(&self) -> ResourceDiffView {
        ResourceDiffView { kind: self.kind@, name: self.name@, diff: self.diff@ }
    }
}

/// The printed form of a difference.
pub open spec fn diff_message(d: ResourceDiffView) -> Seq<char> {
    d.kind + " "@ + d.name + " does not match expectations:\n"@ + d.diff
}

/// What the ready pods of a deployment give rise to, where `min_ready` of
/// them are wanted: `None` where enough are ready, and else what is
/// missing. `status` is the status of the deployment, if it has one, and in
/// it the number of its ready pods, if it names one.
pub open spec fn ready_pods_diff(status: Option<Option<i32>>, min_ready: i32) -> Option<Seq<char>> {
    match status {
        None => Some("no status"@),
        Some(None) => Some("no ready pods"@),
        Some(Some(ready)) => if ready < min_ready {
            Some("not enough ready pods"@)
        } else {
            None
        },
    }
}

impl ResourceDiff {
    pub fn new(kind: String, name: String, diff: String) -> (r: ResourceDiff)
        ensures
            r@ == (ResourceDiffView { kind: kind@, name: name@, diff: diff@ }),
    {
        ResourceDiff { kind, name, diff }
    }

    pub fn new_boxed(kind: String, name: String, diff: String) -> (r: Box<ResourceDiff>)
        ensures
            r@ == (ResourceDiffView { kind: kind@, name: name@, diff: diff@ }),
    {
        Box::new(ResourceDiff::new(kind, name, diff))
    }

    /// The printed form of the difference.
    pub fn to_string(&self) -> (r: String)
        ensures
            r@ == diff_message(self@),
    {
        let mut out = self.kind.clone();
        out.append(" ");
        out.append(self.name.as_str());
        out.append(" does not match expectations:\n");
        out.append(self.diff.as_str());
        out
    }
}

/// Judges a resource by the difference that was found between what is
/// there and what is expected: none is well, and any is reported.
pub fn check_resource_against(kind: &str, name: String, diff: Option<String>) -> (r: Result<
    (),
    Box<ResourceDiff>,
>)
    ensures
        match diff {
            None => r is Ok,
            Some(diff) => r matches Err(found) && found@ == (ResourceDiffView {
                kind: kind@,
                name: name@,
                diff: diff@,
            }),
        },
{
    match diff {
        Some(diff) => Err(ResourceDiff::new_boxed(kind.to_owned(), name, diff)),
        None => Ok(()),
    }
}

/// Judges a deployment by its ready pods: at least `min_ready` of them are
/// wanted.
pub fn check_deployment_ready_pods(
    kind: &str,
    name: String,
    status: Option<Option<i32>>,
    min_ready: i32,
) -> (r: Result<(), Box<ResourceDiff>>)
    ensures
        match ready_pods_diff(status, min_ready) {
            None => r is Ok,
            Some(diff) => r matches Err(found) && found@ == (ResourceDiffView {
                kind: kind@,
                name: name@,
                diff,
            }),
        },
{
    match status {
        Some(Some(ready)) => {
            if ready < min_ready {
                return Err(
                    Box::new(
                        ResourceDiff::new(
                            kind.to_owned(),
                            name,
                            "not enough ready pods".to_owned(),
                        ),
                    ),
                );
            }
        },
        Some(None) => {
            return Err(
                Box::new(ResourceDiff::new(kind.to_owned(), name, "no ready pods".to_owned())),
            );
        },
        None => {
            return Err(Box::new(ResourceDiff::new(kind.to_owned(), name, "no status".to_owned())));
        },
    }
    Ok(())
}

} // verus!
