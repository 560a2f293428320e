use vstd::prelude::*;
use vstd::string::*;
use crate::ids::{hyphenated, id_text};

verus! {

/// Text that every URL of the scheduler's HTTP interface starts with.
pub open spec fn url_root() -> Seq<char> {
    seq!['/', 's', 'c', 'h', 'e', 'd', 'u', 'l', 'e', 'r']
}

/// Every URL of the interface starts with the text `/scheduler`.
pub proof fn lemma_url_root_text()
    ensures
        url_root() == "/scheduler"@,
{
    reveal_strlit("/scheduler");
    assert(url_root() =~= "/scheduler"@);
}

/// The URL of a resource of the scheduler: `/scheduler` followed by `path`.
pub fn scheduler_url(path: &str) -> (url: String)
    ensures
        url@ == url_root() + path@,
{
    let mut url = String::from_str("/scheduler");
    proof {
        reveal_strlit("/scheduler");
    }
    url.append(path);
    url
}

/// The URL of the task whose id has the text `task_id`.
pub fn task_url(task_id: &str) -> (url: String)
    ensures
        url@ == url_root() + "/tasks/"@ + task_id@,
{
    let mut path = String::from_str("/tasks/");
    path.append(task_id);
    let url = scheduler_url(path.as_str());
    proof {
        assert(url@ =~= url_root() + "/tasks/"@ + task_id@);
    }
    url
}

/// The URL of each task in `ids`, in the same order.
pub fn task_urls(ids: &Vec<u128>) -> (urls: Vec<String>)
    ensures
        urls@.len() == ids@.len(),
        forall|i: int| 0 <= i < ids@.len() ==> #[trigger] urls@[i]@ == url_root() + "/tasks/"@ + hyphenated(ids@[i]),
{
    let mut urls: Vec<String> = Vec::new();
    let mut i: usize = 0;
    while i < ids.len()
        invariant
            i <= ids@.len(),
            urls@.len() == i,
            forall|j: int| 0 <= j < i ==> #[trigger] urls@[j]@ == url_root() + "/tasks/"@ + hyphenated(ids@[j]),
        decreases ids@.len() - i,
    {
        let text = id_text(ids[i]);
        urls.push(task_url(text.as_str()));
        i = i + 1;
    }
    urls
}

/// What the root of the HTTP interface answers: its name, the version of the
/// service, and where the task collection is.
pub struct RootResponse {
    pub id: String,
    pub version: String,
    pub tasks: String,
}

/// The answer of the root of the HTTP interface for a service of the given
/// version.
pub fn root_response(version: &str) -> (response: RootResponse)
    ensures
        response.id@ == "SchedulerRootEndpoint"@,
        response.version@ == version@,
        response.tasks@ == url_root() + "/tasks"@,
{
    RootResponse {
        id: String::from_str("SchedulerRootEndpoint"),
        version: String::from_str(version),
        tasks: scheduler_url("/tasks"),
    }
}

} // verus!
