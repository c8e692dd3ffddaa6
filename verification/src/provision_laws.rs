use crate::provision::{
    answer, count_fetches, resolve, resolve_from, step, steps_left, ActionModel, ErrorModel,
    EventModel, Host, Resolution, BINARY_PATH, DOWNLOAD_URL,
};
use vstd::prelude::*;

verus! {

/// Whether a request with this cache and this host is answered from the
/// cache: a path is cached, and the host finds a regular file under it.
pub open spec fn cache_hit(cache: Option<Seq<char>>, host: Host) -> bool {
    cache is Some && host.cached_file_found
}

/// What is asked of the host first where the cache does not answer: to look
/// the cached path up, where one is cached, then to report the download and to
/// fetch the binary.
pub open spec fn download_start(cache: Option<Seq<char>>) -> Seq<ActionModel> {
    let start = seq![ActionModel::ReportDownloading, ActionModel::Fetch { url: DOWNLOAD_URL@ }];
    match cache {
        Some(path) => seq![ActionModel::CheckFile { path }] + start,
        None => start,
    }
}

/// How a download ends with this host: with the error of the first step that
/// fails, which holds what the host said of the failure, or with the path of
/// the file where the fetch, the write and the change of mode all succeed.
pub open spec fn download_outcome(host: Host) -> Result<Seq<char>, ErrorModel> {
    match host.fetched {
        Err(detail) => Err(ErrorModel::Network(detail)),
        Ok(_) => match host.written {
            Err(detail) => Err(ErrorModel::Filesystem(detail)),
            Ok(_) => match host.made_executable {
                Err(detail) => Err(ErrorModel::Permission(detail)),
                Ok(_) => Ok(BINARY_PATH@),
            },
        },
    }
}

/// What is asked of the host once the fetch has ended: to write what came, as
/// it came, and to make the file executable, as far as each step before
/// succeeds, and then the outcome.
pub open spec fn download_end(host: Host) -> Seq<ActionModel> {
    let finish = ActionModel::Finish { outcome: download_outcome(host) };
    match host.fetched {
        Err(_) => seq![finish],
        Ok(contents) => {
            let write = ActionModel::WriteFile { path: BINARY_PATH@, contents };
            match host.written {
                Err(_) => seq![write, finish],
                Ok(_) => seq![write, ActionModel::MakeExecutable { path: BINARY_PATH@ }, finish],
            }
        },
    }
}

/// The fetches of `first` followed by `rest` are those of the two together.
pub proof fn lemma_count_fetches_add(first: Seq<ActionModel>, rest: Seq<ActionModel>)
    ensures
        count_fetches(first + rest) == count_fetches(first) + count_fetches(rest),
    decreases first.len(),
{
    if first.len() == 0 {
        assert(first + rest =~= rest);
    } else {
        assert((first + rest).drop_first() =~= first.drop_first() + rest);
        lemma_count_fetches_add(first.drop_first(), rest);
    }
}

/// Every resolution ends: it asks at most six things of the host, the last is
/// `Finish`, and nothing before it is.
pub proof fn law_resolution_ends(cache: Option<Seq<char>>, event: EventModel, host: Host)
    ensures
        ({
            let run = resolve_from(cache, event, host);
            &&& 1 <= run.actions.len() <= steps_left(event) + 1
            &&& run.actions.last() is Finish
            &&& forall|i: int| 0 <= i < run.actions.len() - 1 ==> !(run.actions[i] is Finish)
        }),
    decreases steps_left(event),
{
    let (next, action) = step(cache, event);
    if !(action is Finish) {
        law_resolution_ends(next, answer(host, action), host);
    }
}

/// A cached path that still names a regular file answers the request: the
/// host is asked to look the path up and nothing else, nothing is fetched,
/// and the cache stays as it was.
pub proof fn law_cache_hit(path: Seq<char>, host: Host)
    requires
        host.cached_file_found,
    ensures
        resolve(Some(path), host) == (Resolution {
            cache: Some(path),
            actions: seq![
                ActionModel::CheckFile { path },
                ActionModel::Finish { outcome: Ok(path) },
            ],
        }),
        resolve(Some(path), host).outcome() == Ok::<Seq<char>, ErrorModel>(path),
        resolve(Some(path), host).fetches() == 0,
{
    reveal_with_fuel(resolve_from, 3);
    reveal_with_fuel(count_fetches, 3);
    let run = resolve(Some(path), host);
    let expected = seq![ActionModel::CheckFile { path }, ActionModel::Finish { outcome: Ok(path) }];
    assert(run.actions =~= expected);
    assert(expected.drop_first() =~= seq![expected[1]]);
    assert(expected.drop_first().drop_first() =~= Seq::<ActionModel>::empty());
}

/// Where the cache does not answer, the binary is fetched once, from the one
/// address, after the download was reported. What came is written as it is
/// to the one file, which is then made executable. The first step that fails
/// ends the resolution with the error of its kind and leaves the cache as it
/// was; where no step fails the file's path is the outcome and is cached.
pub proof fn law_download(cache: Option<Seq<char>>, host: Host)
    requires
        !cache_hit(cache, host),
    ensures
        ({
            let run = resolve(cache, host);
            &&& run.actions == download_start(cache) + download_end(host)
            &&& run.fetches() == 1
            &&& run.outcome() == download_outcome(host)
            &&& run.cache == if download_outcome(host) is Ok {
                Some(BINARY_PATH@)
            } else {
                cache
            }
        }),
{
    reveal_with_fuel(resolve_from, 7);
    let run = resolve(cache, host);
    let start = download_start(cache);
    let end = download_end(host);
    assert(run.actions =~= start + end);
    lemma_count_fetches_add(start, end);
    lemma_count_start(cache);
    lemma_no_fetch(end);
}

/// The start of a download holds one fetch.
proof fn lemma_count_start(cache: Option<Seq<char>>)
    ensures
        count_fetches(download_start(cache)) == 1,
{
    reveal_with_fuel(count_fetches, 3);
    let start = seq![ActionModel::ReportDownloading, ActionModel::Fetch { url: DOWNLOAD_URL@ }];
    assert(start.drop_first() =~= seq![start[1]]);
    assert(start.drop_first().drop_first() =~= Seq::<ActionModel>::empty());
    if let Some(path) = cache {
        let check = seq![ActionModel::CheckFile { path }];
        assert(check.drop_first() =~= Seq::<ActionModel>::empty());
        lemma_count_fetches_add(check, start);
    }
}

/// Actions none of which is a fetch count no fetch.
proof fn lemma_no_fetch(actions: Seq<ActionModel>)
    requires
        forall|i: int| 0 <= i < actions.len() ==> !(actions[i] is Fetch),
    ensures
        count_fetches(actions) == 0,
    decreases actions.len(),
{
    if actions.len() > 0 {
        lemma_no_fetch(actions.drop_first());
    }
}

/// Two requests in a row, the first without a cache that answers, the second
/// with the file of the first still in its place, fetch the binary once in
/// all: where the first resolution has put the binary in place, the second is
/// answered from the cache with the same path.
pub proof fn law_second_request_fetches_nothing(
    cache: Option<Seq<char>>,
    first_host: Host,
    second_host: Host,
)
    requires
        !cache_hit(cache, first_host),
        resolve(cache, first_host).outcome() is Ok,
        second_host.cached_file_found,
    ensures
        ({
            let first = resolve(cache, first_host);
            let second = resolve(first.cache, second_host);
            &&& second.outcome() == first.outcome()
            &&& second.cache == first.cache
            &&& second.fetches() == 0
            &&& first.fetches() + second.fetches() == 1
        }),
{
    law_download(cache, first_host);
    law_cache_hit(BINARY_PATH@, second_host);
}

/// Once a path is cached, a request whose file is still in its place fetches
/// nothing and changes nothing, however often it is made.
pub proof fn law_cached_request_is_idempotent(path: Seq<char>, host: Host, again: Host)
    requires
        host.cached_file_found,
        again.cached_file_found,
    ensures
        ({
            let first = resolve(Some(path), host);
            let second = resolve(first.cache, again);
            &&& second == first
            &&& first.fetches() + second.fetches() == 0
        }),
{
    law_cache_hit(path, host);
    law_cache_hit(path, again);
}

} // verus!
