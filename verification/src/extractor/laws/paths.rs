//! What holds of the requests of every document, path entry and operation.

use vstd::prelude::*;

use crate::document::{OpenAPIView, OperationView, PathItemView, ReferenceOrView};
use crate::extractor::model::{
    document_requests, entry_requests, lemma_paths_requests_push, method_slot,
    operation_request, path_item_requests, paths_requests,
};
use crate::request::{Method, RequestView};

verus! {

/// A document without paths has no requests.
pub proof fn lemma_no_paths_no_requests(document: OpenAPIView)
    requires
        document.paths.len() == 0,
    ensures
        document_requests(document) == Seq::<RequestView>::empty(),
{
    let of_entry = |entry: (Seq<char>, ReferenceOrView<PathItemView>)|
        entry_requests(entry.0, entry.1);
    assert(document.paths.map_values(of_entry).len() == 0);
}

/// A document whose path entries are all given by reference has no
/// requests.
pub proof fn lemma_only_references_no_requests(document: OpenAPIView)
    requires
        forall|i: int|
            0 <= i < document.paths.len() ==> (#[trigger] document.paths[i]).1 is Reference,
    ensures
        document_requests(document) == Seq::<RequestView>::empty(),
    decreases document.paths.len(),
{
    if document.paths.len() == 0 {
        lemma_no_paths_no_requests(document);
    } else {
        let front = document.paths.drop_last();
        let last = document.paths.last();
        assert forall|i: int| 0 <= i < front.len() implies (
        #[trigger] front[i]).1 is Reference by {
            assert(front[i] == document.paths[i]);
        }
        lemma_only_references_no_requests(OpenAPIView { paths: front });
        lemma_paths_requests_push(front, last);
        assert(front.push(last) =~= document.paths);
    }
}

/// The requests of two path mappings, one behind the other, are the
/// requests of the first followed by the requests of the second: each entry
/// yields its requests in one block, and the blocks stand in document order.
pub proof fn lemma_paths_requests_concat(
    before: Seq<(Seq<char>, ReferenceOrView<PathItemView>)>,
    after: Seq<(Seq<char>, ReferenceOrView<PathItemView>)>,
)
    ensures
        paths_requests(before + after) == paths_requests(before) + paths_requests(after),
    decreases after.len(),
{
    if after.len() == 0 {
        lemma_no_paths_no_requests(OpenAPIView { paths: after });
        assert(before + after =~= before);
        assert(paths_requests(before) + Seq::<RequestView>::empty() =~= paths_requests(before));
    } else {
        let front = after.drop_last();
        let last = after.last();
        lemma_paths_requests_concat(before, front);
        lemma_paths_requests_push(before + front, last);
        lemma_paths_requests_push(front, last);
        assert((before + front).push(last) =~= before + after);
        assert(front.push(last) =~= after);
        assert(paths_requests(before) + paths_requests(front) + entry_requests(last.0, last.1)
            =~= paths_requests(before) + (paths_requests(front) + entry_requests(
            last.0,
            last.1,
        )));
    }
}

/// A path item with operations under GET, PUT and POST yields exactly three
/// requests, for GET, PUT and POST in that order, each on the item's path.
pub proof fn lemma_three_methods_three_requests(path: Seq<char>, item: PathItemView)
    requires
        item.get is Some,
        item.put is Some,
        item.post is Some,
    ensures
        entry_requests(path, ReferenceOrView::Item(item)) == seq![
            operation_request(path, Method::Get, item.get->0),
            operation_request(path, Method::Put, item.put->0),
            operation_request(path, Method::Post, item.post->0),
        ],
        entry_requests(path, ReferenceOrView::Item(item)).len() == 3,
        entry_requests(path, ReferenceOrView::Item(item))[0].method == Method::Get,
        entry_requests(path, ReferenceOrView::Item(item))[1].method == Method::Put,
        entry_requests(path, ReferenceOrView::Item(item))[2].method == Method::Post,
        forall|k: int|
            0 <= k < 3 ==> (#[trigger] entry_requests(path, ReferenceOrView::Item(item))[k]).path
                == path,
{
    let requests = entry_requests(path, ReferenceOrView::Item(item));
    assert(requests =~= seq![
        operation_request(path, Method::Get, item.get->0),
        operation_request(path, Method::Put, item.put->0),
        operation_request(path, Method::Post, item.post->0),
    ]);
}

/// The place of a method in the order in which the slots of a path item are
/// read.
pub open spec fn method_rank(method: Method) -> int {
    match method {
        Method::Get => 0,
        Method::Put => 1,
        Method::Post => 2,
    }
}

/// Every request of a path entry is on the entry's path and describes the
/// operation that the entry's item holds in the slot of the request's
/// method; and it stands before the requests of the methods that are read
/// later. So an entry yields at most three requests, at most one for a
/// method.
pub proof fn lemma_entry_requests_in_method_order(
    path: Seq<char>,
    data: ReferenceOrView<PathItemView>,
)
    ensures
        entry_requests(path, data).len() <= 3,
        forall|k: int|
            #![trigger entry_requests(path, data)[k]]
            0 <= k < entry_requests(path, data).len() ==> {
                let request = entry_requests(path, data)[k];
                &&& request.path == path
                &&& data is Item
                &&& method_slot(data->Item_0, request.method) matches Some(operation)
                &&& request == operation_request(path, request.method, operation)
            },
        forall|k: int, l: int|
            #![trigger entry_requests(path, data)[k], entry_requests(path, data)[l]]
            0 <= k < l < entry_requests(path, data).len() ==> method_rank(
                entry_requests(path, data)[k].method,
            ) < method_rank(entry_requests(path, data)[l].method),
{
}

/// The operations that a path item holds under the other methods make no
/// difference to its requests.
pub proof fn lemma_other_methods_are_ignored(
    path: Seq<char>,
    item: PathItemView,
    other: PathItemView,
)
    requires
        item.get == other.get,
        item.put == other.put,
        item.post == other.post,
    ensures
        path_item_requests(path, item) == path_item_requests(path, other),
{
}

/// Every request of a path mapping is among the requests of one of its
/// entries.
pub proof fn lemma_every_request_comes_from_an_entry(
    paths: Seq<(Seq<char>, ReferenceOrView<PathItemView>)>,
    k: int,
)
    requires
        0 <= k < paths_requests(paths).len(),
    ensures
        exists|i: int|
            0 <= i < paths.len() && (#[trigger] entry_requests(
                paths[i].0,
                paths[i].1,
            )).contains(paths_requests(paths)[k]),
    decreases paths.len(),
{
    if paths.len() == 0 {
        lemma_no_paths_no_requests(OpenAPIView { paths });
    } else {
        let front = paths.drop_last();
        let last = paths.last();
        lemma_paths_requests_push(front, last);
        assert(front.push(last) =~= paths);
        if k < paths_requests(front).len() {
            lemma_every_request_comes_from_an_entry(front, k);
            let i = choose|i: int|
                0 <= i < front.len() && (#[trigger] entry_requests(
                    front[i].0,
                    front[i].1,
                )).contains(paths_requests(front)[k]);
            assert(front[i] == paths[i]);
            assert(entry_requests(paths[i].0, paths[i].1).contains(paths_requests(paths)[k]));
        } else {
            let from_last = entry_requests(last.0, last.1);
            let at = k - paths_requests(front).len();
            assert(from_last[at] == paths_requests(paths)[k]);
            let i = paths.len() - 1;
            assert(entry_requests(paths[i].0, paths[i].1).contains(paths_requests(paths)[k]));
        }
    }
}

/// In a document in which no path occurs twice, no two requests share both
/// path and method: there is one request for a method on a path.
pub proof fn lemma_one_request_for_path_and_method(document: OpenAPIView, k: int, l: int)
    requires
        document.has_distinct_paths(),
        0 <= k < l < document_requests(document).len(),
    ensures
        document_requests(document)[k].path != document_requests(document)[l].path
            || document_requests(document)[k].method != document_requests(document)[l].method,
    decreases document.paths.len(),
{
    let paths = document.paths;
    if paths.len() == 0 {
        lemma_no_paths_no_requests(document);
    } else {
        let front = paths.drop_last();
        let last = paths.last();
        let from_last = entry_requests(last.0, last.1);
        lemma_paths_requests_push(front, last);
        assert(front.push(last) =~= paths);
        lemma_entry_requests_in_method_order(last.0, last.1);
        if l < paths_requests(front).len() {
            assert forall|i: int, j: int| 0 <= i < j < front.len() implies (
            #[trigger] front[i]).0 != (#[trigger] front[j]).0 by {
                assert(front[i] == paths[i] && front[j] == paths[j]);
            }
            lemma_one_request_for_path_and_method(OpenAPIView { paths: front }, k, l);
        } else if k < paths_requests(front).len() {
            lemma_every_request_comes_from_an_entry(front, k);
            let i = choose|i: int|
                0 <= i < front.len() && (#[trigger] entry_requests(
                    front[i].0,
                    front[i].1,
                )).contains(paths_requests(front)[k]);
            let from_entry = entry_requests(front[i].0, front[i].1);
            let at = choose|at: int|
                0 <= at < from_entry.len() && from_entry[at] == paths_requests(front)[k];
            lemma_entry_requests_in_method_order(front[i].0, front[i].1);
            assert(from_entry[at].path == front[i].0);
            assert(front[i] == paths[i]);
            assert(from_last[l - paths_requests(front).len()].path == last.0);
            assert(paths[i].0 != paths[paths.len() - 1].0);
        } else {
            let first = k - paths_requests(front).len();
            let second = l - paths_requests(front).len();
            assert(method_rank(from_last[first].method) < method_rank(from_last[second].method));
        }
    }
}

/// Whether a request is on `path`.
pub open spec fn is_on_path(path: Seq<char>) -> spec_fn(RequestView) -> bool {
    |request: RequestView| request.path == path
}

/// Those of `requests` that are on `path`, in their order.
pub open spec fn requests_on_path(requests: Seq<RequestView>, path: Seq<char>) -> Seq<
    RequestView,
> {
    requests.filter(is_on_path(path))
}

/// A filter that every element passes keeps the sequence as it is.
proof fn lemma_filter_keeps_all(requests: Seq<RequestView>, keep: spec_fn(RequestView) -> bool)
    requires
        forall|k: int| 0 <= k < requests.len() ==> keep(#[trigger] requests[k]),
    ensures
        requests.filter(keep) == requests,
    decreases requests.len(),
{
    if requests.len() == 0 {
        assert(requests.filter(keep).len() <= requests.len()) by {
            requests.lemma_filter_len(keep);
        }
        assert(requests.filter(keep) =~= requests);
    } else {
        let front = requests.drop_last();
        lemma_filter_keeps_all(front, keep);
        front.lemma_filter_push(requests.last(), keep);
        assert(front.push(requests.last()) =~= requests);
    }
}

/// A filter that no element passes leaves nothing.
proof fn lemma_filter_drops_all(requests: Seq<RequestView>, keep: spec_fn(RequestView) -> bool)
    requires
        forall|k: int| 0 <= k < requests.len() ==> !keep(#[trigger] requests[k]),
    ensures
        requests.filter(keep) == Seq::<RequestView>::empty(),
    decreases requests.len(),
{
    if requests.len() == 0 {
        assert(requests.filter(keep).len() <= requests.len()) by {
            requests.lemma_filter_len(keep);
        }
        assert(requests.filter(keep) =~= Seq::<RequestView>::empty());
    } else {
        let front = requests.drop_last();
        lemma_filter_drops_all(front, keep);
        front.lemma_filter_push(requests.last(), keep);
        assert(front.push(requests.last()) =~= requests);
    }
}

/// A path mapping in which `path` is no key has no request on `path`.
pub proof fn lemma_no_requests_on_other_paths(
    paths: Seq<(Seq<char>, ReferenceOrView<PathItemView>)>,
    path: Seq<char>,
)
    requires
        forall|j: int| 0 <= j < paths.len() ==> (#[trigger] paths[j]).0 != path,
    ensures
        requests_on_path(paths_requests(paths), path) == Seq::<RequestView>::empty(),
{
    let requests = paths_requests(paths);
    assert forall|k: int| 0 <= k < requests.len() implies !is_on_path(path)(
        #[trigger] requests[k],
    ) by {
        lemma_every_request_comes_from_an_entry(paths, k);
        let j = choose|j: int|
            0 <= j < paths.len() && (#[trigger] entry_requests(
                paths[j].0,
                paths[j].1,
            )).contains(requests[k]);
        let from_entry = entry_requests(paths[j].0, paths[j].1);
        let at = choose|at: int| 0 <= at < from_entry.len() && from_entry[at] == requests[k];
        lemma_entry_requests_in_method_order(paths[j].0, paths[j].1);
        assert(from_entry[at].path == paths[j].0);
    }
    lemma_filter_drops_all(requests, is_on_path(path));
}

/// In a document in which no path occurs twice, the requests on the path of
/// an entry are the requests of that entry and no others.
pub proof fn lemma_requests_on_a_path(document: OpenAPIView, i: int)
    requires
        document.has_distinct_paths(),
        0 <= i < document.paths.len(),
    ensures
        requests_on_path(document_requests(document), document.paths[i].0) == entry_requests(
            document.paths[i].0,
            document.paths[i].1,
        ),
{
    let paths = document.paths;
    let path = paths[i].0;
    let before = paths.take(i);
    let here = Seq::empty().push(paths[i]);
    let after = paths.skip(i + 1);
    let from_entry = entry_requests(path, paths[i].1);
    let on_path = is_on_path(path);

    assert(paths =~= before + here + after);
    lemma_paths_requests_concat(before + here, after);
    lemma_paths_requests_concat(before, here);
    lemma_no_paths_no_requests(OpenAPIView { paths: Seq::empty() });
    lemma_paths_requests_push(Seq::empty(), paths[i]);
    assert(paths_requests(here) =~= from_entry);

    assert forall|j: int| 0 <= j < before.len() implies (#[trigger] before[j]).0 != path by {
        assert(before[j] == paths[j]);
    }
    lemma_no_requests_on_other_paths(before, path);
    assert forall|j: int| 0 <= j < after.len() implies (#[trigger] after[j]).0 != path by {
        assert(after[j] == paths[i + 1 + j]);
    }
    lemma_no_requests_on_other_paths(after, path);
    lemma_entry_requests_in_method_order(path, paths[i].1);
    lemma_filter_keeps_all(from_entry, on_path);

    Seq::filter_distributes_over_add(
        paths_requests(before) + from_entry,
        paths_requests(after),
        on_path,
    );
    Seq::filter_distributes_over_add(paths_requests(before), from_entry, on_path);
    assert(Seq::<RequestView>::empty() + from_entry + Seq::<RequestView>::empty()
        =~= from_entry);
}

/// No request of a document carries an error type.
pub proof fn lemma_requests_carry_no_error_type(document: OpenAPIView, k: int)
    requires
        0 <= k < document_requests(document).len(),
    ensures
        document_requests(document)[k].error_type is None,
{
    let paths = document.paths;
    lemma_every_request_comes_from_an_entry(paths, k);
    let i = choose|i: int|
        0 <= i < paths.len() && (#[trigger] entry_requests(
            paths[i].0,
            paths[i].1,
        )).contains(paths_requests(paths)[k]);
    let from_entry = entry_requests(paths[i].0, paths[i].1);
    let at = choose|at: int|
        0 <= at < from_entry.len() && from_entry[at] == paths_requests(paths)[k];
    lemma_entry_requests_in_method_order(paths[i].0, paths[i].1);
    assert(from_entry[at].error_type is None);
}

/// An operation without an identifier yields a request whose name is the
/// empty string.
pub proof fn lemma_unnamed_operation_has_empty_name(
    path: Seq<char>,
    method: Method,
    operation: OperationView,
)
    requires
        operation.operation_id is None,
    ensures
        operation_request(path, method, operation).name == Seq::<char>::empty(),
{
}

} // verus!
