//! The command dispatcher: interprets one resolved command, drives the
//! registry store and, for state-toggle commands, fans one HTTP request out
//! per matching record.

use vstd::prelude::*;
use vstd::multiset::Multiset;
use crate::device::Record;
use crate::device::StoreError;
use crate::store::Store;
use crate::store::keep_address;
use crate::store::keep_name;
use crate::store::no_rows;
use crate::store::row_views;
use crate::laws::lemma_filter_push;
use crate::laws::lemma_row_views_push;
use crate::laws::lemma_to_multiset_filter;

verus! {

/// One resolved invocation. The commands are mutually exclusive; each run
/// ensures the schema exists, then executes one of them.
#[derive(Debug)]
pub enum Command {
    /// Print every registered device.
    List,
    /// Register a device under an address and a name.
    Add { address: String, name: String },
    /// Delete the records an address or a name selects; the wildcard
    /// sentinel `*` wipes the whole table.
    Remove { address: Option<String>, name: Option<String> },
    /// Switch the matching devices on.
    Enable { address: Option<String>, name: Option<String> },
    /// Switch the matching devices off.
    Disable { address: Option<String>, name: Option<String> },
}

/// Whether a row is selected by a state-toggle target: the address decides
/// alone whenever one is given — the name is consulted only when no
/// address was supplied — and with neither given nothing matches.
pub open spec fn matches_target(
    row: (Seq<char>, Seq<char>),
    address: Option<Seq<char>>,
    name: Option<Seq<char>>,
) -> bool {
    match address {
        Some(a) => row.0 == a,
        None => match name {
            Some(n) => row.1 == n,
            None => false,
        },
    }
}

/// The selection predicate of a state-toggle target, as one function
/// value.
pub open spec fn target_pred(
    address: Option<Seq<char>>,
    name: Option<Seq<char>>,
) -> spec_fn((Seq<char>, Seq<char>)) -> bool {
    |row: (Seq<char>, Seq<char>)| matches_target(row, address, name)
}

/// The two-branch matching step: exact string comparison against the
/// address, or — only when no address was given — against the name.
pub fn record_matches(rec: &Record, address: &Option<String>, name: &Option<String>) -> (b: bool)
    ensures
        b == matches_target(rec@, address.deep_view(), name.deep_view()),
{
    match address {
        Some(a) => rec.address == *a,
        None => match name {
            Some(n) => rec.name == *n,
            None => false,
        },
    }
}

/// Whether a value is the wildcard sentinel.
pub open spec fn is_wildcard(v: Seq<char>) -> bool {
    v == "*"@
}

fn value_is_wildcard(v: &String) -> (b: bool)
    ensures
        b == is_wildcard(v@),
{
    let star: String = String::from_str("*");
    *v == star
}

/// How a remove command is to act, the wildcard sentinel resolved into a
/// variant of its own rather than carried along as a magic value.
#[derive(Debug)]
pub enum RemoveAction {
    /// The wildcard was given: destroy the whole table.
    DropAll,
    /// Delete the records whose address equals the value.
    ByAddress(String),
    /// Delete the records whose name equals the value.
    ByName(String),
    /// No target was given: nothing to do.
    Nothing,
}

/// Resolves the target of a remove command. The address takes precedence:
/// a given name is consulted only when no address was supplied. The
/// wildcard sentinel `*` in whichever field decides becomes `DropAll`.
pub fn classify_remove(address: Option<String>, name: Option<String>) -> (a: RemoveAction)
    ensures
        match a {
            RemoveAction::DropAll => (address.deep_view() == Some("*"@)) || (address is None
                && name.deep_view() == Some("*"@)),
            RemoveAction::ByAddress(v) => address.deep_view() == Some(v@) && !is_wildcard(v@),
            RemoveAction::ByName(v) => address is None && name.deep_view() == Some(v@)
                && !is_wildcard(v@),
            RemoveAction::Nothing => address is None && name is None,
        },
{
    match address {
        Some(a) => {
            if value_is_wildcard(&a) {
                RemoveAction::DropAll
            } else {
                RemoveAction::ByAddress(a)
            }
        }
        None => match name {
            Some(n) => {
                if value_is_wildcard(&n) {
                    RemoveAction::DropAll
                } else {
                    RemoveAction::ByName(n)
                }
            }
            None => RemoveAction::Nothing,
        },
    }
}

/// The state-toggle endpoint of the device at `address`.
pub open spec fn spec_device_url(address: Seq<char>) -> Seq<char> {
    "http://"@ + address + "/json"@
}

/// Builds the URL of a device's state-toggle endpoint.
pub fn device_url(address: &str) -> (r: String)
    ensures
        r@ == spec_device_url(address@),
{
    let mut s: String = String::from_str("http://");
    s.append(address);
    s.append("/json");
    s
}

/// The JSON body of a state-toggle request: an object with the one
/// boolean field `on`.
pub open spec fn spec_state_body(on: bool) -> Seq<char> {
    if on {
        "{\"on\":true}"@
    } else {
        "{\"on\":false}"@
    }
}

/// Serialises the state-toggle body.
pub fn state_body(on: bool) -> (r: &'static str)
    ensures
        r@ == spec_state_body(on),
{
    if on {
        "{\"on\":true}"
    } else {
        "{\"on\":false}"
    }
}

#[verifier::external_type_specification]
#[verifier::external_body]
pub struct ExHttpClient(reqwest::blocking::Client);

#[verifier::external_type_specification]
#[verifier::external_body]
pub struct ExHttpError(reqwest::Error);

/// Relies on `reqwest::blocking::ClientBuilder::build`: a blocking HTTP
/// client with default settings.
#[verifier::external_body]
fn http_client_build() -> (r: Result<reqwest::blocking::Client, reqwest::Error>)
{
    reqwest::blocking::Client::builder().build()
}

/// Relies on `reqwest::blocking::Client`: one synchronous POST of `body`
/// to `url` as JSON. The outcome depends on the network, so nothing is
/// promised of it; the result only reports whether a response came back.
#[verifier::external_body]
fn http_post_json(client: &reqwest::blocking::Client, url: &str, body: &str) -> (delivered: bool)
{
    let sent = client.post(url).header("Content-Type", "application/json").body(body.to_string()).send();
    sent.is_ok()
}

/// One fan-out attempt: the record contacted and whether the request was
/// delivered. A failed delivery is recorded here, never surfaced as an
/// error.
#[derive(Debug)]
pub struct Attempt {
    pub target: Record,
    pub delivered: bool,
}

/// The views of the records a sequence of attempts contacted, in order.
pub open spec fn attempt_targets(v: Seq<Attempt>) -> Seq<(Seq<char>, Seq<char>)> {
    v.map(|i: int, a: Attempt| a.target@)
}

/// What a command reports back to its caller.
#[derive(Debug)]
pub enum Outcome {
    /// Every record of the registry, for printing.
    Listed(Vec<Record>),
    /// The record was appended.
    Added,
    /// How many records an exact-match delete removed.
    Removed(usize),
    /// The wildcard was given: the table was dropped, best-effort.
    RemovedAll,
    /// A remove with no target: nothing was done.
    NoTarget,
    /// One entry per matching record, in listing order.
    Dispatched(Vec<Attempt>),
}

/// The matching step of a state-toggle command: of the listed records,
/// those the target selects, in listing order.
pub fn select_targets(
    records: &Vec<Record>,
    address: &Option<String>,
    name: &Option<String>,
) -> (v: Vec<Record>)
    ensures
        row_views(v@) == row_views(records@).filter(
            target_pred(address.deep_view(), name.deep_view()),
        ),
{
    let ghost pred = target_pred(address.deep_view(), name.deep_view());
    let mut v: Vec<Record> = Vec::new();
    let mut i: usize = 0;
    proof {
        reveal(Seq::filter);
        assert(records@.take(0) =~= Seq::<Record>::empty());
        assert(row_views(records@.take(0)) =~= Seq::<(Seq<char>, Seq<char>)>::empty());
        assert(row_views(v@) =~= Seq::<(Seq<char>, Seq<char>)>::empty());
    }
    while i < records.len()
        invariant
            i <= records@.len(),
            pred == target_pred(address.deep_view(), name.deep_view()),
            row_views(v@) == row_views(records@.take(i as int)).filter(pred),
        decreases records@.len() - i,
    {
        let ghost prefix = records@.take(i as int);
        let ghost prev = v@;
        let matched = record_matches(&records[i], address, name);
        if matched {
            v.push(records[i].duplicate());
        }
        proof {
            assert(records@.take(i as int + 1) =~= prefix.push(records@[i as int]));
            lemma_row_views_push(prefix, records@[i as int]);
            lemma_filter_push(row_views(prefix), records@[i as int]@, pred);
            if matched {
                assert(v@ == prev.push(v@[prev.len() as int]));
                lemma_row_views_push(prev, v@[prev.len() as int]);
            }
        }
        i += 1;
    }
    proof {
        assert(records@.take(records@.len() as int) =~= records@);
    }
    v
}

/// The fan-out of a state-toggle command: one POST per target, in order,
/// each failure isolated — a dead device neither halts the iteration over
/// the remaining targets nor fails the command. Returns one attempt per
/// target, in order, recording whether its request was delivered.
pub fn dispatch_state(targets: &Vec<Record>, on: bool) -> (r: Vec<Attempt>)
    ensures
        attempt_targets(r@) == row_views(targets@),
{
    let client = http_client_build();
    let body = state_body(on);
    let mut r: Vec<Attempt> = Vec::new();
    let mut i: usize = 0;
    proof {
        assert(attempt_targets(r@) =~= row_views(targets@.take(0)));
    }
    while i < targets.len()
        invariant
            i <= targets@.len(),
            attempt_targets(r@) == row_views(targets@.take(i as int)),
        decreases targets@.len() - i,
    {
        let ghost prev = r@;
        let url = device_url(targets[i].address.as_str());
        let delivered = match &client {
            Ok(c) => http_post_json(c, url.as_str(), body),
            Err(_) => false,
        };
        r.push(Attempt { target: targets[i].duplicate(), delivered });
        proof {
            assert(targets@.take(i as int + 1) =~= targets@.take(i as int).push(
                targets@[i as int],
            ));
            lemma_row_views_push(targets@.take(i as int), targets@[i as int]);
            assert(attempt_targets(r@) =~= attempt_targets(prev).push(
                r@[prev.len() as int].target@,
            ));
        }
        i += 1;
    }
    proof {
        assert(targets@.take(targets@.len() as int) =~= targets@);
    }
    r
}

/// What a successful remove reports and leaves behind, for a registry
/// whose rows were `before`: the wildcard drops the table best-effort (a
/// store fault there is discarded, leaving the rows as they were), an
/// exact match deletes precisely the matching rows and counts them, and
/// an empty target does nothing.
pub open spec fn remove_outcome_ok(
    before: Multiset<(Seq<char>, Seq<char>)>,
    after: Multiset<(Seq<char>, Seq<char>)>,
    after_present: bool,
    address: Option<Seq<char>>,
    name: Option<Seq<char>>,
    o: Outcome,
) -> bool {
    match address {
        Some(a) => if a == "*"@ {
            o == Outcome::RemovedAll && ((!after_present && after == no_rows()) || (after_present
                && after == before))
        } else {
            (o matches Outcome::Removed(n) && after_present && after == before.filter(
                keep_address(a),
            ) && n as int == before.len() - after.len())
        },
        None => match name {
            Some(nm) => if nm == "*"@ {
                o == Outcome::RemovedAll && ((!after_present && after == no_rows()) || (
                after_present && after == before))
            } else {
                (o matches Outcome::Removed(n) && after_present && after == before.filter(
                    keep_name(nm),
                ) && n as int == before.len() - after.len())
            },
            None => o == Outcome::NoTarget && after_present && after == before,
        },
    }
}

/// What a successful state-toggle reports, for a registry whose rows were
/// `rows`: one attempt per row the target selects.
pub open spec fn dispatch_outcome_ok(
    rows: Multiset<(Seq<char>, Seq<char>)>,
    address: Option<Seq<char>>,
    name: Option<Seq<char>>,
    o: Outcome,
) -> bool {
    o matches Outcome::Dispatched(v) && attempt_targets(v@).to_multiset() == rows.filter(
        target_pred(address, name),
    )
}

fn run_remove(store: &mut Store, address: Option<String>, name: Option<String>) -> (r: Result<
    Outcome,
    StoreError,
>)
    requires
        old(store).present(),
    ensures
        r is Err ==> final(store).records() == old(store).records(),
        r matches Ok(o) ==> remove_outcome_ok(
            old(store).records(),
            final(store).records(),
            final(store).present(),
            address.deep_view(),
            name.deep_view(),
            o,
        ),
{
    match classify_remove(address, name) {
        RemoveAction::DropAll => {
            // best-effort by design: a store fault here is discarded
            let _dropped = store.drop_all();
            Ok(Outcome::RemovedAll)
        }
        RemoveAction::ByAddress(v) => match store.delete_by_address(v.as_str()) {
            Ok(n) => Ok(Outcome::Removed(n)),
            Err(e) => Err(e),
        },
        RemoveAction::ByName(v) => match store.delete_by_name(v.as_str()) {
            Ok(n) => Ok(Outcome::Removed(n)),
            Err(e) => Err(e),
        },
        RemoveAction::Nothing => Ok(Outcome::NoTarget),
    }
}

fn run_set_state(store: &mut Store, address: Option<String>, name: Option<String>, on: bool) -> (r:
    Result<Outcome, StoreError>)
    requires
        old(store).present(),
    ensures
        final(store).present() == old(store).present(),
        final(store).records() == old(store).records(),
        r matches Ok(o) ==> dispatch_outcome_ok(
            old(store).records(),
            address.deep_view(),
            name.deep_view(),
            o,
        ),
{
    let records = match store.list() {
        Ok(v) => v,
        Err(e) => {
            return Err(e);
        }
    };
    let targets = select_targets(&records, &address, &name);
    let attempts = dispatch_state(&targets, on);
    proof {
        lemma_to_multiset_filter(
            row_views(records@),
            target_pred(address.deep_view(), name.deep_view()),
        );
    }
    Ok(Outcome::Dispatched(attempts))
}

/// Runs one resolved command: ensures the schema exists, then executes the
/// command against the store and, for a state-toggle, fans requests out to
/// the selected devices. A store fault surfaces as the error — except on
/// the wildcard-remove path, whose fault is discarded by design — while
/// every network fault is recorded in the outcome and discarded.
pub fn run_command(store: &mut Store, cmd: Command) -> (r: Result<Outcome, StoreError>)
    ensures
        r is Err ==> final(store).records() == old(store).records(),
        r matches Ok(o) ==> match cmd {
            Command::List => {
                &&& o matches Outcome::Listed(v)
                &&& row_views(v@).to_multiset() == old(store).records()
                &&& final(store).present()
                &&& final(store).records() == old(store).records()
            },
            Command::Add { address, name } => {
                &&& o == Outcome::Added
                &&& final(store).present()
                &&& final(store).records() == old(store).records().insert((address@, name@))
            },
            Command::Remove { address, name } => remove_outcome_ok(
                old(store).records(),
                final(store).records(),
                final(store).present(),
                address.deep_view(),
                name.deep_view(),
                o,
            ),
            Command::Enable { address, name } => {
                &&& final(store).present()
                &&& final(store).records() == old(store).records()
                &&& dispatch_outcome_ok(
                    old(store).records(),
                    address.deep_view(),
                    name.deep_view(),
                    o,
                )
            },
            Command::Disable { address, name } => {
                &&& final(store).present()
                &&& final(store).records() == old(store).records()
                &&& dispatch_outcome_ok(
                    old(store).records(),
                    address.deep_view(),
                    name.deep_view(),
                    o,
                )
            },
        },
{
    match store.ensure_schema() {
        Ok(()) => {}
        Err(e) => {
            return Err(e);
        }
    }
    match cmd {
        Command::List => match store.list() {
            Ok(v) => Ok(Outcome::Listed(v)),
            Err(e) => Err(e),
        },
        Command::Add { address, name } => {
            let rec = Record::new(address, name);
            match store.insert(&rec) {
                Ok(()) => Ok(Outcome::Added),
                Err(e) => Err(e),
            }
        }
        Command::Remove { address, name } => run_remove(store, address, name),
        Command::Enable { address, name } => run_set_state(store, address, name, true),
        Command::Disable { address, name } => run_set_state(store, address, name, false),
    }
}

} // verus!
