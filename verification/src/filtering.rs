//! Keeping the rows that a search or a filter admits.

use crate::api::{ServiceRow, ServiceRowView};
use crate::model::NetworkStateFilter;
use crate::rows::{NetworkRow, NetworkRowView, ProcessRow, ProcessRowView};
use crate::sorting::views;
use crate::text::{
    contains, decimal, decimal_text, has_text, lowered, to_chars, to_lower, trim, trimmed,
};
use vstd::prelude::*;

verus! {

/// A condition on rows that the program can decide.
pub trait RowFilter<T: View> {
    /// Whether a row with the given model is kept.
    spec fn admits(&self, row: T::V) -> bool;

    /// Decides the condition.
    fn keeps(&self, row: &T) -> (r: bool)
        ensures
            r == self.admits(row@),
    ;
}

/// The condition of a `RowFilter` as a function on models.
pub open spec fn condition_of<T: View, F: RowFilter<T>>(filter: F) -> spec_fn(T::V) -> bool {
    |row: T::V| filter.admits(row)
}

/// The rows that a filter keeps, in their order.
pub fn filter_rows<T: View, F: RowFilter<T>>(rows: Vec<T>, filter: &F) -> (kept: Vec<T>)
    ensures
        views(kept@) == views(rows@).filter(condition_of::<T, F>(*filter)),
{
    let ghost input = rows@;
    let ghost models = views(rows@);
    let ghost admits = condition_of::<T, F>(*filter);
    let mut kept: Vec<T> = Vec::new();
    proof {
        reveal(Seq::filter);
        assert(models.take(0) == Seq::<T::V>::empty());
        assert(views(kept@) =~= models.take(0).filter(admits));
    }
    for row in it: rows
        invariant
            it.seq() == input,
            models == views(input),
            admits == condition_of::<T, F>(*filter),
            views(kept@) == models.take(it.index()).filter(admits),
    {
        let ghost before = kept@;
        proof {
            reveal(Seq::filter);
            let n = it.index();
            assert(models.take(n + 1).drop_last() =~= models.take(n));
            assert(models.take(n + 1).last() == row@);
        }
        if filter.keeps(&row) {
            kept.push(row);
            assert(views(kept@) =~= views(before).push(row@));
        }
    }
    assert(models.take(models.len() as int) =~= models);
    kept
}

/// What is searched for: the query without surrounding white space, in lower case.
pub open spec fn search_text(query: Seq<char>) -> Seq<char> {
    lowered(trimmed(query))
}

/// What is searched for.
pub fn search_term(query: &str) -> (term: String)
    ensures
        term@ == search_text(query@),
{
    let part = trim(query);
    to_lower(part.as_str())
}

/// Whether a field holds the text that is searched for, whatever its case.
pub open spec fn field_has(field: Seq<char>, term: Seq<char>) -> bool {
    has_text(lowered(field), term)
}

/// Whether a field holds the text that is searched for, whatever its case.
pub fn field_contains(field: &str, term: &str) -> (found: bool)
    ensures
        found == field_has(field@, term@),
{
    let lower = to_lower(field);
    contains(lower.as_str(), term)
}

/// Whether the decimal notation of a number holds the text that is searched for.
pub fn number_contains(number: u32, term: &str) -> (found: bool)
    ensures
        found == has_text(decimal(number as nat), term@),
{
    let text = decimal_text(number as u64);
    contains(text.as_str(), term)
}

/// Whether a process is found by a search: by its name, number, priority, or path.
pub open spec fn process_found(row: ProcessRowView, term: Seq<char>) -> bool {
    ||| term.len() == 0
    ||| field_has(row.name, term)
    ||| has_text(decimal(row.pid as nat), term)
    ||| field_has(row.priority, term)
    ||| field_has(
        match row.exe_path {
            Some(path) => path,
            None => Seq::empty(),
        },
        term,
    )
}

/// Whether a service is found by a search: by its names, status, or start type.
pub open spec fn service_found(row: ServiceRowView, term: Seq<char>) -> bool {
    ||| term.len() == 0
    ||| field_has(row.display_name, term)
    ||| field_has(row.service_name, term)
    ||| field_has(row.status, term)
    ||| field_has(row.start_type, term)
}

/// Whether an endpoint is found by a search: by its process, addresses, or state.
pub open spec fn network_found(row: NetworkRowView, term: Seq<char>) -> bool {
    ||| term.len() == 0
    ||| has_text(decimal(row.pid as nat), term)
    ||| field_has(row.process_name, term)
    ||| field_has(row.local_endpoint, term)
    ||| field_has(row.remote_endpoint, term)
    ||| field_has(row.state, term)
}

/// The search for processes.
pub struct ProcessSearch {
    pub term: String,
}

impl RowFilter<ProcessRow> for ProcessSearch {
    open spec fn admits(&self, row: ProcessRowView) -> bool {
        process_found(row, self.term@)
    }

    fn keeps(&self, row: &ProcessRow) -> (r: bool) {
        let term = self.term.as_str();
        if to_chars(term).len() == 0 {
            return true;
        }
        let in_path = match &row.exe_path {
            Some(path) => field_contains(path.as_str(), term),
            None => {
                assert(lowered(Seq::<char>::empty()) =~= Seq::<char>::empty());
                assert(!has_text(Seq::<char>::empty(), term@));
                false
            },
        };
        in_path || field_contains(row.name.as_str(), term) || number_contains(row.pid, term)
            || field_contains(row.priority.as_str(), term)
    }
}

/// The search for services.
pub struct ServiceSearch {
    pub term: String,
}

impl RowFilter<ServiceRow> for ServiceSearch {
    open spec fn admits(&self, row: ServiceRowView) -> bool {
        service_found(row, self.term@)
    }

    fn keeps(&self, row: &ServiceRow) -> (r: bool) {
        let term = self.term.as_str();
        to_chars(term).len() == 0 || field_contains(row.display_name.as_str(), term)
            || field_contains(row.service_name.as_str(), term) || field_contains(
            row.status.as_str(),
            term,
        ) || field_contains(row.start_type.as_str(), term)
    }
}

/// The search for endpoints, among those in an admitted state.
pub struct NetworkSearch {
    pub term: String,
    pub filter: NetworkStateFilter,
}

impl RowFilter<NetworkRow> for NetworkSearch {
    open spec fn admits(&self, row: NetworkRowView) -> bool {
        self.filter.admits(row.state) && network_found(row, self.term@)
    }

    fn keeps(&self, row: &NetworkRow) -> (r: bool) {
        let term = self.term.as_str();
        self.filter.matches(row.state.as_str()) && (to_chars(term).len() == 0
            || number_contains(row.pid, term) || field_contains(row.process_name.as_str(), term)
            || field_contains(row.local_endpoint.as_str(), term) || field_contains(
            row.remote_endpoint.as_str(),
            term,
        ) || field_contains(row.state.as_str(), term))
    }
}

/// The processes that a query finds, in their order.
pub open spec fn found_processes(rows: Seq<ProcessRowView>, query: Seq<char>) -> Seq<
    ProcessRowView,
> {
    rows.filter(|row: ProcessRowView| process_found(row, search_text(query)))
}

/// The services that a query finds, in their order.
pub open spec fn found_services(rows: Seq<ServiceRowView>, query: Seq<char>) -> Seq<
    ServiceRowView,
> {
    rows.filter(|row: ServiceRowView| service_found(row, search_text(query)))
}

/// The endpoints in an admitted state that a query finds, in their order.
pub open spec fn found_endpoints(
    rows: Seq<NetworkRowView>,
    query: Seq<char>,
    filter: NetworkStateFilter,
) -> Seq<NetworkRowView> {
    rows.filter(
        |row: NetworkRowView| filter.admits(row.state) && network_found(row, search_text(query)),
    )
}

/// The processes that a query finds, in their order.
pub fn find_processes(rows: Vec<ProcessRow>, query: &str) -> (found: Vec<ProcessRow>)
    ensures
        views(found@) == found_processes(views(rows@), query@),
{
    let search = ProcessSearch { term: search_term(query) };
    let found = filter_rows(rows, &search);
    assert(condition_of::<ProcessRow, ProcessSearch>(search) =~= (|row: ProcessRowView|
        process_found(row, search_text(query@))));
    found
}

/// The services that a query finds, in their order.
pub fn find_services(rows: Vec<ServiceRow>, query: &str) -> (found: Vec<ServiceRow>)
    ensures
        views(found@) == found_services(views(rows@), query@),
{
    let search = ServiceSearch { term: search_term(query) };
    let found = filter_rows(rows, &search);
    assert(condition_of::<ServiceRow, ServiceSearch>(search) =~= (|row: ServiceRowView|
        service_found(row, search_text(query@))));
    found
}

/// The endpoints in an admitted state that a query finds, in their order.
pub fn find_endpoints(rows: Vec<NetworkRow>, query: &str, filter: NetworkStateFilter) -> (found:
    Vec<NetworkRow>)
    ensures
        views(found@) == found_endpoints(views(rows@), query@, filter),
{
    let search = NetworkSearch { term: search_term(query), filter };
    let found = filter_rows(rows, &search);
    assert(condition_of::<NetworkRow, NetworkSearch>(search) =~= (|row: NetworkRowView|
        filter.admits(row.state) && network_found(row, search_text(query@))));
    found
}

/// A filter whose condition every row meets keeps all rows.
proof fn lemma_filter_keeps_all<A>(rows: Seq<A>, admits: spec_fn(A) -> bool)
    requires
        forall|i: int| 0 <= i < rows.len() ==> admits(#[trigger] rows[i]),
    ensures
        rows.filter(admits) == rows,
    decreases rows.len(),
{
    reveal(Seq::filter);
    if rows.len() > 0 {
        let front = rows.drop_last();
        assert forall|i: int| 0 <= i < front.len() implies admits(#[trigger] front[i]) by {
            assert(front[i] == rows[i]);
        }
        lemma_filter_keeps_all(front, admits);
        assert(front.push(rows.last()) =~= rows);
    }
}

/// A query of nothing but white space leaves all processes and services in the lists, and,
/// with the filter that admits every state, all endpoints.
pub proof fn blank_query_finds_everything(
    query: Seq<char>,
    processes: Seq<ProcessRowView>,
    services: Seq<ServiceRowView>,
    endpoints: Seq<NetworkRowView>,
)
    requires
        trimmed(query).len() == 0,
    ensures
        found_processes(processes, query) == processes,
        found_services(services, query) == services,
        found_endpoints(endpoints, query, NetworkStateFilter::All) == endpoints,
{
    lemma_filter_keeps_all(
        processes,
        |row: ProcessRowView| process_found(row, search_text(query)),
    );
    lemma_filter_keeps_all(
        services,
        |row: ServiceRowView| service_found(row, search_text(query)),
    );
    lemma_filter_keeps_all(
        endpoints,
        |row: NetworkRowView|
            NetworkStateFilter::All.admits(row.state) && network_found(row, search_text(query)),
    );
}

/// A search finds a process if and only if the process is listed and matches.
pub proof fn search_finds_what_matches(
    rows: Seq<ProcessRowView>,
    query: Seq<char>,
    row: ProcessRowView,
)
    ensures
        found_processes(rows, query).contains(row) <==> rows.contains(row) && process_found(
            row,
            search_text(query),
        ),
{
    let admits = |r: ProcessRowView| process_found(r, search_text(query));
    let found = rows.filter(admits);
    if found.contains(row) {
        rows.lemma_filter_contains_rev(admits, row);
        let i = choose|i: int| 0 <= i < found.len() && found[i] == row;
        rows.lemma_filter_pred(admits, i);
    }
    if rows.contains(row) && process_found(row, search_text(query)) {
        let i = choose|i: int| 0 <= i < rows.len() && rows[i] == row;
        rows.lemma_filter_contains(admits, i);
    }
}

/// Searching the found processes again for the same query finds all of them.
pub proof fn search_is_idempotent(rows: Seq<ProcessRowView>, query: Seq<char>)
    ensures
        found_processes(found_processes(rows, query), query) == found_processes(rows, query),
{
    let admits = |r: ProcessRowView| process_found(r, search_text(query));
    let found = rows.filter(admits);
    assert forall|i: int| 0 <= i < found.len() implies admits(#[trigger] found[i]) by {
        rows.lemma_filter_pred(admits, i);
    }
    lemma_filter_keeps_all(found, admits);
}

/// What a filter keeps are the rows that meet its condition.
proof fn lemma_filter_members<A>(rows: Seq<A>, admits: spec_fn(A) -> bool, row: A)
    ensures
        rows.filter(admits).contains(row) <==> rows.contains(row) && admits(row),
{
    let kept = rows.filter(admits);
    if kept.contains(row) {
        rows.lemma_filter_contains_rev(admits, row);
        let i = choose|i: int| 0 <= i < kept.len() && kept[i] == row;
        rows.lemma_filter_pred(admits, i);
    }
    if rows.contains(row) && admits(row) {
        let i = choose|i: int| 0 <= i < rows.len() && rows[i] == row;
        rows.lemma_filter_contains(admits, i);
    }
}

/// A query finds a process by its name, its number, its priority, or the path of its executable:
/// by any of them that holds the trimmed query, whatever the case. It finds no other process.
pub proof fn processes_are_found_by_any_field(
    rows: Seq<ProcessRowView>,
    query: Seq<char>,
    row: ProcessRowView,
)
    ensures
        ({
            let term = lowered(trimmed(query));
            let found = found_processes(rows, query).contains(row);
            &&& rows.contains(row) && trimmed(query).len() == 0 ==> found
            &&& rows.contains(row) && has_text(lowered(row.name), term) ==> found
            &&& rows.contains(row) && has_text(decimal(row.pid as nat), term) ==> found
            &&& rows.contains(row) && has_text(lowered(row.priority), term) ==> found
            &&& rows.contains(row) && row.exe_path is Some && has_text(
                lowered(row.exe_path->0),
                term,
            ) ==> found
            &&& found ==> rows.contains(row) && (trimmed(query).len() == 0 || has_text(
                lowered(row.name),
                term,
            ) || has_text(decimal(row.pid as nat), term) || has_text(lowered(row.priority), term)
                || (row.exe_path is Some && has_text(lowered(row.exe_path->0), term)))
        }),
{
    let term = lowered(trimmed(query));
    lemma_filter_members(rows, |r: ProcessRowView| process_found(r, search_text(query)), row);
    let empty = Seq::<char>::empty();
    assert(lowered(empty) =~= empty);
    if has_text(empty, term) {
        let at = choose|at: int| #[trigger] crate::text::occurs_at(empty, term, at);
        assert(term.len() == 0);
    }
}

/// A query finds a service by its display name, its service name, its status, or its start type:
/// by any of them that holds the trimmed query, whatever the case. It finds no other service.
pub proof fn services_are_found_by_any_field(
    rows: Seq<ServiceRowView>,
    query: Seq<char>,
    row: ServiceRowView,
)
    ensures
        ({
            let term = lowered(trimmed(query));
            let found = found_services(rows, query).contains(row);
            &&& rows.contains(row) && trimmed(query).len() == 0 ==> found
            &&& rows.contains(row) && has_text(lowered(row.display_name), term) ==> found
            &&& rows.contains(row) && has_text(lowered(row.service_name), term) ==> found
            &&& rows.contains(row) && has_text(lowered(row.status), term) ==> found
            &&& rows.contains(row) && has_text(lowered(row.start_type), term) ==> found
            &&& found ==> rows.contains(row) && (trimmed(query).len() == 0 || has_text(
                lowered(row.display_name),
                term,
            ) || has_text(lowered(row.service_name), term) || has_text(lowered(row.status), term)
                || has_text(lowered(row.start_type), term))
        }),
{
    lemma_filter_members(rows, |r: ServiceRowView| service_found(r, search_text(query)), row);
}

/// A query finds an endpoint by the number or the name of its process, its local or its remote
/// end, or its state: by any of them that holds the trimmed query, whatever the case. It finds
/// no other endpoint, and none that the filter of states leaves out: one lets only listening
/// endpoints through, one only established connections.
pub proof fn endpoints_are_found_by_any_field(
    rows: Seq<NetworkRowView>,
    query: Seq<char>,
    filter: NetworkStateFilter,
    row: NetworkRowView,
)
    ensures
        ({
            let term = lowered(trimmed(query));
            let found = found_endpoints(rows, query, filter).contains(row);
            let open = rows.contains(row) && match filter {
                NetworkStateFilter::All => true,
                NetworkStateFilter::Listening => lowered(row.state) == "listen"@,
                NetworkStateFilter::Established => lowered(row.state) == "established"@,
            };
            &&& open && trimmed(query).len() == 0 ==> found
            &&& open && has_text(decimal(row.pid as nat), term) ==> found
            &&& open && has_text(lowered(row.process_name), term) ==> found
            &&& open && has_text(lowered(row.local_endpoint), term) ==> found
            &&& open && has_text(lowered(row.remote_endpoint), term) ==> found
            &&& open && has_text(lowered(row.state), term) ==> found
            &&& found ==> open && (trimmed(query).len() == 0 || has_text(
                decimal(row.pid as nat),
                term,
            ) || has_text(lowered(row.process_name), term) || has_text(
                lowered(row.local_endpoint),
                term,
            ) || has_text(lowered(row.remote_endpoint), term) || has_text(
                lowered(row.state),
                term,
            ))
        }),
{
    lemma_filter_members(
        rows,
        |r: NetworkRowView| filter.admits(r.state) && network_found(r, search_text(query)),
        row,
    );
    reveal_strlit("listen");
    reveal_strlit("established");
    assert(lowered("listen"@) =~= "listen"@);
    assert(lowered("established"@) =~= "established"@);
}

/// A search keeps the order of the rows and how often each is listed: what it finds in two lists
/// one after the other is what it finds in each.
pub proof fn searches_keep_the_order(
    query: Seq<char>,
    filter: NetworkStateFilter,
    processes: (Seq<ProcessRowView>, Seq<ProcessRowView>),
    services: (Seq<ServiceRowView>, Seq<ServiceRowView>),
    endpoints: (Seq<NetworkRowView>, Seq<NetworkRowView>),
    process: ProcessRowView,
    service: ServiceRowView,
    endpoint: NetworkRowView,
)
    ensures
        found_processes(processes.0 + processes.1, query) == found_processes(processes.0, query)
            + found_processes(processes.1, query),
        found_services(services.0 + services.1, query) == found_services(services.0, query)
            + found_services(services.1, query),
        found_endpoints(endpoints.0 + endpoints.1, query, filter) == found_endpoints(
            endpoints.0,
            query,
            filter,
        ) + found_endpoints(endpoints.1, query, filter),
        found_processes(seq![process], query).len() <= 1,
        found_services(seq![service], query).len() <= 1,
        found_endpoints(seq![endpoint], query, filter).len() <= 1,
{
    let by_process = |r: ProcessRowView| process_found(r, search_text(query));
    let by_service = |r: ServiceRowView| service_found(r, search_text(query));
    let by_endpoint = |r: NetworkRowView|
        filter.admits(r.state) && network_found(r, search_text(query));
    Seq::filter_distributes_over_add(processes.0, processes.1, by_process);
    Seq::filter_distributes_over_add(services.0, services.1, by_service);
    Seq::filter_distributes_over_add(endpoints.0, endpoints.1, by_endpoint);
    broadcast use Seq::lemma_filter_len;

}

} // verus!
