//! What holds of every pass, whatever the catalog and the store answer.

use vstd::prelude::*;
use crate::config::{DBConnection, DatabaseConfig};
use crate::reconcile::{
    calls_catalog,
    in_range,
    next_action,
    statement_text,
    writes_store,
    Action,
    Event,
};
use crate::record::{field_key, secret_name_text, CredentialRecord};
use crate::sql::{alter_role_text, create_role_text};
use crate::text::{decimal, lemma_decimal_injective, lemma_decimal_nonempty};

verus! {

/// The call that is pending after the first `k` outcomes of `events`, in a
/// pass for a tenant with `n` databases.
pub open spec fn action_at(events: Seq<Event>, n: nat, k: nat) -> Action
    decreases k,
{
    if k == 0 {
        Action::GetSecret
    } else {
        next_action(action_at(events, n, (k - 1) as nat), events[k - 1], n)
    }
}

/// Whether `action` ends a pass.
pub open spec fn ends_pass(action: Action) -> bool {
    action == Action::Finish || action == Action::Abort
}

/// The place of `action` in the order in which a pass makes its calls.
pub open spec fn rank(action: Action, n: nat) -> nat {
    match action {
        Action::GetSecret => 0,
        Action::CheckRole => 1,
        Action::CreateRole => 2,
        Action::AlterRole => 2,
        Action::CheckDatabase(i) => (3 + 3 * i) as nat,
        Action::CreateDatabase(i) => (4 + 3 * i) as nat,
        Action::Grant(i) => (5 + 3 * i) as nat,
        Action::CreateSecret => 3 + 3 * n,
        Action::Finish => 4 + 3 * n,
        Action::Abort => 5 + 3 * n,
    }
}

/// Every step moves forward in the order of the calls, and strictly so
/// until the pass is over.
pub proof fn lemma_step_climbs(pending: Action, event: Event, n: usize)
    requires
        in_range(pending, n as nat),
    ensures
        in_range(next_action(pending, event, n as nat), n as nat),
        rank(pending, n as nat) <= rank(next_action(pending, event, n as nat), n as nat),
        !ends_pass(pending) ==> rank(pending, n as nat) < rank(
            next_action(pending, event, n as nat),
            n as nat,
        ),
{
}

/// A pass names only databases that the tenant has.
pub proof fn lemma_pass_in_range(events: Seq<Event>, n: usize, k: nat)
    ensures
        in_range(action_at(events, n as nat, k), n as nat),
    decreases k,
{
    if k > 0 {
        lemma_pass_in_range(events, n, (k - 1) as nat);
        lemma_step_climbs(action_at(events, n as nat, (k - 1) as nat), events[k - 1], n);
    }
}

/// Later calls of a pass stand later in the order of the calls.
pub proof fn lemma_pass_climbs(events: Seq<Event>, n: usize, j: nat, k: nat)
    requires
        j <= k,
    ensures
        rank(action_at(events, n as nat, j), n as nat) <= rank(
            action_at(events, n as nat, k),
            n as nat,
        ),
        j < k && !ends_pass(action_at(events, n as nat, j)) ==> rank(
            action_at(events, n as nat, j),
            n as nat,
        ) < rank(action_at(events, n as nat, k), n as nat),
    decreases k - j,
{
    if j < k {
        lemma_pass_in_range(events, n, (k - 1) as nat);
        lemma_step_climbs(action_at(events, n as nat, (k - 1) as nat), events[k - 1], n);
        lemma_pass_climbs(events, n, j, (k - 1) as nat);
    }
}

/// Where the store holds the tenant's record, the pass is over after the
/// first outcome: no later call goes to the catalog and none writes to the
/// store, whatever the tenant asks for and whatever is reported afterwards.
pub proof fn law_published_record_ends_pass(events: Seq<Event>, n: usize, k: nat)
    requires
        events.len() >= 1,
        events[0] == Event::SecretFound,
    ensures
        k >= 1 ==> action_at(events, n as nat, k) == Action::Finish,
        !calls_catalog(action_at(events, n as nat, k)),
        !writes_store(action_at(events, n as nat, k)),
    decreases k,
{
    if k >= 2 {
        law_published_record_ends_pass(events, n, (k - 1) as nat);
    } else if k == 1 {
        assert(action_at(events, n as nat, 0) == Action::GetSecret);
    }
}

/// The store is asked for the record once, at the start of a pass: so a
/// password is minted at most once, and the one minted stays the password of
/// every later call.
pub proof fn law_record_is_looked_up_first(events: Seq<Event>, n: usize, k: nat)
    requires
        k >= 1,
    ensures
        action_at(events, n as nat, k) != Action::GetSecret,
{
    lemma_pass_climbs(events, n, 0, k);
}

/// Where the store holds no record and the catalog no such role, the role is
/// created, and no call of the pass alters it.
pub proof fn law_missing_role_is_created(events: Seq<Event>, n: usize, k: nat)
    requires
        events.len() >= 2,
        events[0] == Event::SecretMissing,
        events[1] == Event::Exists(false),
    ensures
        action_at(events, n as nat, 1) == Action::CheckRole,
        action_at(events, n as nat, 2) == Action::CreateRole,
        action_at(events, n as nat, k) != Action::AlterRole,
{
    assert(action_at(events, n as nat, 0) == Action::GetSecret);
    assert(action_at(events, n as nat, 1) == Action::CheckRole);
    assert(action_at(events, n as nat, 2) == Action::CreateRole);
    if k > 2 {
        lemma_pass_climbs(events, n, 2, k);
    }
}

/// Where the store holds no record and the catalog has the role, the role's
/// password is altered, and no call of the pass creates the role.
pub proof fn law_present_role_is_rotated(events: Seq<Event>, n: usize, k: nat)
    requires
        events.len() >= 2,
        events[0] == Event::SecretMissing,
        events[1] == Event::Exists(true),
    ensures
        action_at(events, n as nat, 1) == Action::CheckRole,
        action_at(events, n as nat, 2) == Action::AlterRole,
        action_at(events, n as nat, k) != Action::CreateRole,
{
    assert(action_at(events, n as nat, 0) == Action::GetSecret);
    assert(action_at(events, n as nat, 1) == Action::CheckRole);
    assert(action_at(events, n as nat, 2) == Action::AlterRole);
    if k > 2 {
        lemma_pass_climbs(events, n, 2, k);
    }
}

/// The password that the role is created or altered with is the one that
/// the record holds under `password`.
pub proof fn law_record_holds_role_password(
    connection: DBConnection,
    tenant: DatabaseConfig,
    password: Seq<char>,
    record: CredentialRecord,
)
    requires
        record.describes(&connection, &tenant, password),
    ensures
        statement_text(tenant.username@, password, tenant.database_names(), Action::CreateRole)
            == Some(create_role_text(tenant.username@, password)),
        statement_text(tenant.username@, password, tenant.database_names(), Action::AlterRole)
            == Some(alter_role_text(tenant.username@, password)),
        record.fields@[3].key@ == "password"@,
        record.fields@[3].value@ == password,
        record.fields@[2].key@ == "username"@,
        record.fields@[2].value@ == tenant.username@,
{
}

/// Where the catalog answers that a database exists, the next call grants
/// it to the role, and no call of the pass creates it.
pub proof fn law_present_database_is_granted_not_created(
    events: Seq<Event>,
    n: usize,
    k: nat,
    i: usize,
    j: nat,
)
    requires
        k < events.len(),
        action_at(events, n as nat, k) == Action::CheckDatabase(i),
        events[k as int] == Event::Exists(true),
    ensures
        action_at(events, n as nat, k + 1) == Action::Grant(i),
        action_at(events, n as nat, j) != Action::CreateDatabase(i),
{
    assert(action_at(events, n as nat, k + 1) == Action::Grant(i));
    if j < k {
        lemma_pass_climbs(events, n, j, k);
    } else if j > k + 1 {
        lemma_pass_climbs(events, n, k + 1, j);
    }
}

/// Where the catalog answers that a database is missing, it is created, and
/// then granted to the role as one that was there.
pub proof fn law_missing_database_is_created_then_granted(
    events: Seq<Event>,
    n: usize,
    k: nat,
    i: usize,
)
    requires
        k + 1 < events.len(),
        action_at(events, n as nat, k) == Action::CheckDatabase(i),
        events[k as int] == Event::Exists(false),
        events[k as int + 1] == Event::Completed,
    ensures
        action_at(events, n as nat, k + 1) == Action::CreateDatabase(i),
        action_at(events, n as nat, k + 2) == Action::Grant(i),
{
    assert(action_at(events, n as nat, k + 1) == Action::CreateDatabase(i));
    assert(action_at(events, n as nat, k + 2) == next_action(
        action_at(events, n as nat, k + 1),
        events[k as int + 1],
        n as nat,
    ));
}

/// A pass that is not over has made as many steps forward in the order of
/// the calls as it was given outcomes.
proof fn lemma_rank_counts_outcomes(events: Seq<Event>, n: usize, k: nat)
    ensures
        !ends_pass(action_at(events, n as nat, k)) ==> k <= rank(
            action_at(events, n as nat, k),
            n as nat,
        ),
    decreases k,
{
    if k > 0 {
        lemma_rank_counts_outcomes(events, n, (k - 1) as nat);
        lemma_pass_in_range(events, n, (k - 1) as nat);
        lemma_step_climbs(action_at(events, n as nat, (k - 1) as nat), events[k - 1], n);
    }
}

/// A pass is over after at most three outcomes for the record and the role
/// and three for each database: nothing is tried again.
pub proof fn law_pass_is_bounded(events: Seq<Event>, n: usize, k: nat)
    requires
        k > 3 * n + 3,
    ensures
        ends_pass(action_at(events, n as nat, k)),
{
    lemma_rank_counts_outcomes(events, n, k);
    lemma_pass_in_range(events, n, k);
}

/// The place of a tenant's record in a store: its namespace and its name.
pub open spec fn record_place(tenant: DatabaseConfig) -> (Seq<char>, Seq<char>) {
    (tenant.namespace@, secret_name_text(tenant.username@))
}

/// What a store that holds the records at `store` answers when it is asked
/// for the tenant's record.
pub open spec fn lookup_answer(
    store: Set<(Seq<char>, Seq<char>)>,
    tenant: DatabaseConfig,
) -> Event {
    if store.contains(record_place(tenant)) {
        Event::SecretFound
    } else {
        Event::SecretMissing
    }
}

/// Whether the first `k` outcomes of a pass report that the record was
/// published.
pub open spec fn published(events: Seq<Event>, n: nat, k: nat) -> bool {
    exists|j: nat|
        j < k && #[trigger] action_at(events, n, j) == Action::CreateSecret && events[j as int]
            == Event::Completed
}

/// The records that the store holds after the first `k` outcomes of a pass
/// for `tenant`, where nothing else writes to it.
pub open spec fn store_after(
    store: Set<(Seq<char>, Seq<char>)>,
    tenant: DatabaseConfig,
    events: Seq<Event>,
    k: nat,
) -> Set<(Seq<char>, Seq<char>)> {
    if published(events, tenant.databases@.len(), k) {
        store.insert(record_place(tenant))
    } else {
        store
    }
}

/// A pass finishes only where the store held the record at the start, or
/// where the pass has published it: after a finished pass the record is
/// there, and the next pass for the tenant finds it.
pub proof fn law_finished_pass_leaves_record(events: Seq<Event>, n: usize, k: nat)
    requires
        action_at(events, n as nat, k) == Action::Finish,
    ensures
        events[0] == Event::SecretFound || published(events, n as nat, k),
    decreases k,
{
    if k > 0 {
        let j = (k - 1) as nat;
        let before = action_at(events, n as nat, j);
        if before == Action::Finish {
            law_finished_pass_leaves_record(events, n, j);
        } else if before == Action::GetSecret {
            if j >= 1 {
                law_record_is_looked_up_first(events, n, j);
            }
        } else {
            assert(before == Action::CreateSecret && events[j as int] == Event::Completed);
        }
    }
}

/// Reconciling twice changes nothing the second time: where a pass for a
/// tenant has finished and nothing else has written to the store, the next
/// pass for the same tenant is over after its lookup of the record, calls
/// the catalog never and publishes nothing.
pub proof fn law_second_pass_is_idle(
    store: Set<(Seq<char>, Seq<char>)>,
    tenant: DatabaseConfig,
    n: usize,
    first: Seq<Event>,
    k: nat,
    second: Seq<Event>,
    m: nat,
)
    requires
        n == tenant.databases@.len(),
        first.len() >= 1,
        second.len() >= 1,
        first[0] == lookup_answer(store, tenant),
        action_at(first, n as nat, k) == Action::Finish,
        second[0] == lookup_answer(store_after(store, tenant, first, k), tenant),
    ensures
        m >= 1 ==> action_at(second, n as nat, m) == Action::Finish,
        !calls_catalog(action_at(second, n as nat, m)),
        !writes_store(action_at(second, n as nat, m)),
{
    law_finished_pass_leaves_record(first, n, k);
    law_published_record_ends_pass(second, n, m);
}

/// Whether the first `k` outcomes of a pass report that the role was created
/// or its password altered.
pub open spec fn role_settled(events: Seq<Event>, n: nat, k: nat) -> bool {
    exists|j: nat|
        j < k && (#[trigger] action_at(events, n, j) == Action::CreateRole || action_at(
            events,
            n,
            j,
        ) == Action::AlterRole) && events[j as int] == Event::Completed
}

/// Whether the first `k` outcomes of a pass report that the database at
/// position `i` was granted to the role.
pub open spec fn granted(events: Seq<Event>, n: nat, k: nat, i: usize) -> bool {
    exists|j: nat|
        j < k && #[trigger] action_at(events, n, j) == Action::Grant(i) && events[j as int]
            == Event::Completed
}

/// The number of databases that are dealt with before `action` comes.
pub open spec fn databases_before(action: Action, n: nat) -> nat {
    match action {
        Action::CheckDatabase(i) => i as nat,
        Action::CreateDatabase(i) => i as nat,
        Action::Grant(i) => i as nat,
        Action::CreateSecret => n,
        _ => 0,
    }
}

/// Whether `action` comes after the role, and before the end of the pass.
pub open spec fn after_role(action: Action) -> bool {
    match action {
        Action::CheckDatabase(_) => true,
        Action::CreateDatabase(_) => true,
        Action::Grant(_) => true,
        Action::CreateSecret => true,
        _ => false,
    }
}

proof fn lemma_granted_stays(events: Seq<Event>, n: usize, k: nat, i: usize)
    requires
        granted(events, n as nat, k, i),
    ensures
        granted(events, n as nat, k + 1, i),
{
    let j = choose|j: nat|
        j < k && #[trigger] action_at(events, n as nat, j) == Action::Grant(i) && events[j as int]
            == Event::Completed;
    assert(j < k + 1 && action_at(events, n as nat, j) == Action::Grant(i) && events[j as int]
        == Event::Completed);
}

proof fn lemma_role_stays(events: Seq<Event>, n: usize, k: nat)
    requires
        role_settled(events, n as nat, k),
    ensures
        role_settled(events, n as nat, k + 1),
{
    let j = choose|j: nat|
        j < k && (#[trigger] action_at(events, n as nat, j) == Action::CreateRole || action_at(
            events,
            n as nat,
            j,
        ) == Action::AlterRole) && events[j as int] == Event::Completed;
    assert(j < k + 1 && (action_at(events, n as nat, j) == Action::CreateRole || action_at(
        events,
        n as nat,
        j,
    ) == Action::AlterRole) && events[j as int] == Event::Completed);
}

/// The calls of a pass come in order: a call that follows the role comes
/// after the role was created or altered, and after every database before
/// its own was granted. So the record is published only once the role has
/// the minted password and each database of the tenant is granted to it.
pub proof fn law_calls_come_in_order(events: Seq<Event>, n: usize, k: nat)
    ensures
        after_role(action_at(events, n as nat, k)) ==> role_settled(events, n as nat, k),
        forall|i: usize|
            i < databases_before(action_at(events, n as nat, k), n as nat) ==> granted(
                events,
                n as nat,
                k,
                i,
            ),
    decreases k,
{
    if k > 0 {
        let j = (k - 1) as nat;
        let before = action_at(events, n as nat, j);
        let now = action_at(events, n as nat, k);
        law_calls_come_in_order(events, n, j);
        lemma_pass_in_range(events, n, j);
        assert(now == next_action(before, events[j as int], n as nat));
        if after_role(now) {
            if after_role(before) {
                lemma_role_stays(events, n, j);
            } else {
                assert((before == Action::CreateRole || before == Action::AlterRole)
                    && events[j as int] == Event::Completed);
            }
        }
        assert forall|i: usize| i < databases_before(now, n as nat) implies granted(
            events,
            n as nat,
            k,
            i,
        ) by {
            if i < databases_before(before, n as nat) {
                lemma_granted_stays(events, n, j, i);
            } else {
                assert(before == Action::Grant(i) && events[j as int] == Event::Completed);
            }
        }
    }
}

/// A text read from behind a prefix is the text that was put behind it.
proof fn lemma_same_prefix(prefix: Seq<char>, a: Seq<char>, b: Seq<char>)
    requires
        prefix + a == prefix + b,
    ensures
        a == b,
{
    assert((prefix + a).subrange(prefix.len() as int, (prefix + a).len() as int) =~= a);
    assert((prefix + b).subrange(prefix.len() as int, (prefix + b).len() as int) =~= b);
}

/// No two fields of a record have the same key.
pub proof fn law_field_keys_differ(j: nat, k: nat)
    requires
        j != k,
    ensures
        field_key(j) != field_key(k),
{
    reveal_strlit("database_host");
    reveal_strlit("database_port");
    reveal_strlit("username");
    reveal_strlit("password");
    reveal_strlit("database.");
    reveal_strlit("database_url.");
    let a = field_key(j);
    let b = field_key(k);
    if j >= 4 {
        lemma_decimal_nonempty(((j - 4) / 2) as nat);
        if (j - 4) % 2 == 0 {
            assert(a[0] == 'd' && a[8] == '.' && a.len() >= 10);
        } else {
            assert(a[0] == 'd' && a[8] == '_' && a[9] == 'u' && a.len() >= 14);
        }
    }
    if k >= 4 {
        lemma_decimal_nonempty(((k - 4) / 2) as nat);
        if (k - 4) % 2 == 0 {
            assert(b[0] == 'd' && b[8] == '.' && b.len() >= 10);
        } else {
            assert(b[0] == 'd' && b[8] == '_' && b[9] == 'u' && b.len() >= 14);
        }
    }
    if j < 4 {
        assert(a[0] == 'u' || a[0] == 'p' || (a[8] == '_' && (a[9] == 'h' || a[9] == 'p')));
    }
    if k < 4 {
        assert(b[0] == 'u' || b[0] == 'p' || (b[8] == '_' && (b[9] == 'h' || b[9] == 'p')));
    }
    if j >= 4 && k >= 4 && (j - 4) % 2 == (k - 4) % 2 && a == b {
        let x = ((j - 4) / 2) as nat;
        let y = ((k - 4) / 2) as nat;
        if (j - 4) % 2 == 0 {
            lemma_same_prefix("database."@, decimal(x), decimal(y));
        } else {
            lemma_same_prefix("database_url."@, decimal(x), decimal(y));
        }
        lemma_decimal_injective(x, y);
    }
}

/// Each key occurs once in a record: a record read as a map from keys to
/// texts has a field for every position of the list.
pub proof fn law_record_keys_occur_once(
    connection: DBConnection,
    tenant: DatabaseConfig,
    password: Seq<char>,
    record: CredentialRecord,
    j: int,
    k: int,
)
    requires
        record.describes(&connection, &tenant, password),
        0 <= j < record.fields@.len(),
        0 <= k < record.fields@.len(),
        j != k,
    ensures
        record.fields@[j].key@ != record.fields@[k].key@,
{
    law_field_keys_differ(j as nat, k as nat);
}

} // verus!
