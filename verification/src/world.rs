//! A whole request, served against a model of the outside.
//!
//! `handle_session` only decides; what it asks for is done elsewhere. To say
//! what a request comes to, this module describes the outside as a `World`:
//! the settings in the environment, what the provider answers, which of the
//! database operations fail, and the relation before the request. `run`
//! drives the transition function against such a world. The laws of the
//! service are proved about `run`.

use crate::config::ConfigKey;
use crate::create_session::{
    creator_of, request_of, CreateSessionResponseView, ProviderReplyView,
};
use crate::error::SessionErrorView;
use crate::handle_session::{session_data_of, step, ActionView, EventView, StageView};
use crate::listener::{reply_of, HttpReplyView, ERROR_BODY};
use crate::session_storage::INSERT_SESSION;
use crate::session_table::{SessionRecordView, SessionTableView};
use vstd::prelude::*;

verus! {

/// The database operations that fail for a reason of their own, each with
/// the cause that is reported. Where an entry is `None` the operation does
/// what the relation says.
pub struct Faults {
    pub connect: Option<Seq<char>>,
    pub setup: Option<Seq<char>>,
    pub insert: Option<Seq<char>>,
    pub query: Option<Seq<char>>,
}

impl Faults {
    /// No operation fails for a reason of its own.
    pub open spec fn none(self) -> bool {
        self.connect is None && self.setup is None && self.insert is None && self.query is None
    }
}

/// The outside of the service during one request.
pub struct World {
    /// The settings that the environment holds.
    pub settings: Map<ConfigKey, Seq<char>>,
    /// How the request to the provider ends.
    pub provider: ProviderReplyView,
    /// The database operations that fail.
    pub faults: Faults,
    /// The relation.
    pub table: SessionTableView,
}

impl World {
    /// What the environment holds for a setting.
    pub open spec fn setting(self, key: ConfigKey) -> Option<Seq<char>> {
        if self.settings.contains_key(key) {
            Some(self.settings[key])
        } else {
            None
        }
    }

    /// The environment holds both provider settings.
    pub open spec fn api_configured(self) -> bool {
        self.settings.contains_key(ConfigKey::AuthToken) && self.settings.contains_key(
            ConfigKey::ApiEndpoint,
        )
    }

    /// The environment holds all four database settings.
    pub open spec fn db_configured(self) -> bool {
        &&& self.settings.contains_key(ConfigKey::DbHost)
        &&& self.settings.contains_key(ConfigKey::DbUser)
        &&& self.settings.contains_key(ConfigKey::DbPassword)
        &&& self.settings.contains_key(ConfigKey::DbName)
    }

    /// The environment holds every setting.
    pub open spec fn configured(self) -> bool {
        self.api_configured() && self.db_configured()
    }

    /// How the world answers a piece of work, and what it is afterwards.
    /// `None` for the two actions that ask for no work.
    pub open spec fn answer(self, action: ActionView) -> Option<(World, EventView)> {
        match action {
            ActionView::LoadApiSettings => Some(
                (
                    self,
                    EventView::ApiSettings {
                        auth_token: self.setting(ConfigKey::AuthToken),
                        api_endpoint: self.setting(ConfigKey::ApiEndpoint),
                    },
                ),
            ),
            ActionView::Send(_) => Some((self, EventView::ProviderReplied(self.provider))),
            ActionView::LoadDbSettings => Some(
                (
                    self,
                    EventView::DbSettings {
                        host: self.setting(ConfigKey::DbHost),
                        user: self.setting(ConfigKey::DbUser),
                        password: self.setting(ConfigKey::DbPassword),
                        name: self.setting(ConfigKey::DbName),
                    },
                ),
            ),
            ActionView::Connect { .. } => Some(
                (
                    self,
                    EventView::Connected(
                        match self.faults.connect {
                            Some(cause) => Err(cause),
                            None => Ok(()),
                        },
                    ),
                ),
            ),
            ActionView::SetupTable { .. } => match self.faults.setup {
                Some(cause) => Some((self, EventView::TableReady(Err(cause)))),
                None => Some(
                    (
                        World { table: self.table.create_if_absent(), ..self },
                        EventView::TableReady(Ok(())),
                    ),
                ),
            },
            ActionView::Insert { record, .. } => match self.faults.insert {
                Some(cause) => Some((self, EventView::Inserted(Err(cause)))),
                None => match self.table.insert(record) {
                    Ok(table) => Some((World { table, ..self }, EventView::Inserted(Ok(())))),
                    Err(cause) => Some((self, EventView::Inserted(Err(cause)))),
                },
            },
            ActionView::QueryLatest { .. } => match self.faults.query {
                Some(cause) => Some((self, EventView::Queried(Err(cause)))),
                None => Some((self, EventView::Queried(self.table.latest_launch_url()))),
            },
            ActionView::Finish(_) => None,
            ActionView::Idle => None,
        }
    }
}

/// What became of a request.
pub struct Run {
    /// The actions that were asked for, in order.
    pub actions: Seq<ActionView>,
    /// The world after the request.
    pub world: World,
    /// The result that the request finished with, if it finished.
    pub served: Option<Result<Seq<char>, SessionErrorView>>,
}

impl Run {
    /// The answer that the client gets.
    pub open spec fn reply(self) -> HttpReplyView {
        reply_of(self.served->0)
    }
}

/// The number of steps that a request at this stage is away from its end,
/// at most.
pub open spec fn remaining(stage: StageView) -> nat {
    match stage {
        StageView::Start => 8,
        StageView::LoadingApiSettings => 7,
        StageView::Requesting(_) => 6,
        StageView::LoadingDbSettings(_) => 5,
        StageView::Connecting(_, _) => 4,
        StageView::SettingUp(_, _) => 3,
        StageView::Storing(_) => 2,
        StageView::Querying(_) => 1,
        StageView::Done => 0,
    }
}

/// Drives the request from a stage at which an event has arrived: takes
/// the step, lets the world do the work and answer, and goes on until an
/// action asks for no work.
pub open spec fn run_from(stage: StageView, event: EventView, world: World) -> Run
    decreases remaining(stage),
{
    let (next, action) = step(stage, event);
    match world.answer(action) {
        Some((after, answer)) => {
            let rest = run_from(next, answer, after);
            Run { actions: seq![action] + rest.actions, world: rest.world, served: rest.served }
        },
        None => Run {
            actions: seq![action],
            world,
            served: match action {
                ActionView::Finish(served) => Some(served),
                _ => None,
            },
        },
    }
}

/// One request, from its arrival to its answer.
pub open spec fn run(world: World) -> Run {
    run_from(StageView::Start, EventView::Begin, world)
}

/// Whether an action goes out to the provider.
pub open spec fn is_provider_call(action: ActionView) -> bool {
    action is Send
}

/// Whether an action goes out to the database.
pub open spec fn is_database_call(action: ActionView) -> bool {
    action is Connect || action is SetupTable || action is Insert || action is QueryLatest
}

/// Every request is answered: whatever the world, the run ends with a
/// result, after at most eight actions, the last of which is the only
/// `Finish`.
pub proof fn lemma_every_request_is_answered(world: World)
    ensures
        run(world).served is Some,
        1 <= run(world).actions.len() <= 8,
        run(world).actions.last() == ActionView::Finish(run(world).served->0),
{
    reveal_with_fuel(run_from, 9);
}

/// A request is served with the launch URL that the provider returned:
/// where every setting is there, the provider answers with a launch URL and
/// a client token, and the database does its work, the client gets status
/// 200 with exactly that URL, and the relation has gained exactly one row,
/// which holds the session as the provider described it.
pub proof fn lemma_launch_url_is_returned(world: World, response: CreateSessionResponseView)
    requires
        world.configured(),
        world.provider == ProviderReplyView::Session(response),
        response.launch_url is Some,
        response.client_token is Some,
        world.faults.none(),
        world.table.next_id() <= i32::MAX,
    ensures
        run(world).served == Some(Ok::<Seq<char>, SessionErrorView>(response.launch_url->0)),
        run(world).reply() == (HttpReplyView { status: 200, body: response.launch_url->0 }),
        run(world).world.table.rows == world.table.rows.push(
            SessionRecordView {
                id: world.table.next_id() as i32,
                fail_code: response.session.fail_code,
                launch_url: response.launch_url->0,
                client_token: response.client_token->0,
            },
        ),
{
    reveal_with_fuel(run_from, 9);
}

/// A provider answer without a launch URL is not held back: where the
/// request gets as far as the store, the insert is asked for with the
/// record as it came, launch URL absent. The relation refuses the row, so
/// the request fails with a store-write error, the client gets status 500,
/// and no row is added.
pub proof fn lemma_absent_launch_url_fails_the_insert(
    world: World,
    response: CreateSessionResponseView,
)
    requires
        world.configured(),
        world.provider == ProviderReplyView::Session(response),
        response.launch_url is None,
        world.faults.connect is None,
        world.faults.setup is None,
    ensures
        run(world).actions.len() == 7,
        run(world).actions[5] == (ActionView::Insert {
            statement: INSERT_SESSION@,
            record: session_data_of(response),
        }),
        run(world).served is Some,
        run(world).served->0 is Err,
        run(world).served->0->Err_0 is StoreWrite,
        run(world).reply().status == 500,
        run(world).world.table.rows == world.table.rows,
{
    reveal_with_fuel(run_from, 9);
}

/// A missing provider setting ends the request before anything goes out:
/// the result is the configuration error that names the first missing
/// one, the token before the endpoint, and no action reaches the provider
/// or the database.
pub proof fn lemma_missing_api_setting_stops_every_call(world: World)
    requires
        !world.api_configured(),
    ensures
        run(world).served == Some(
            Err::<Seq<char>, SessionErrorView>(
                SessionErrorView::Configuration(
                    if world.settings.contains_key(ConfigKey::AuthToken) {
                        ConfigKey::ApiEndpoint
                    } else {
                        ConfigKey::AuthToken
                    },
                ),
            ),
        ),
        run(world).actions.len() == 2,
        run(world).actions[0] == ActionView::LoadApiSettings,
        forall|i: int|
            0 <= i < run(world).actions.len() ==> !is_provider_call(
                #[trigger] run(world).actions[i],
            ) && !is_database_call(run(world).actions[i]),
        run(world).world == world,
{
    reveal_with_fuel(run_from, 9);
}

/// A missing database setting ends the request before anything reaches
/// the database: where the request gets as far as the store, the result is
/// the configuration error that names the first missing one, in the order
/// host, user, password, name, and no action reaches the database.
pub proof fn lemma_missing_db_setting_stops_every_database_call(
    world: World,
    response: CreateSessionResponseView,
)
    requires
        world.api_configured(),
        world.provider == ProviderReplyView::Session(response),
        !world.db_configured(),
    ensures
        run(world).served == Some(
            Err::<Seq<char>, SessionErrorView>(
                SessionErrorView::Configuration(
                    if !world.settings.contains_key(ConfigKey::DbHost) {
                        ConfigKey::DbHost
                    } else if !world.settings.contains_key(ConfigKey::DbUser) {
                        ConfigKey::DbUser
                    } else if !world.settings.contains_key(ConfigKey::DbPassword) {
                        ConfigKey::DbPassword
                    } else {
                        ConfigKey::DbName
                    },
                ),
            ),
        ),
        run(world).actions.len() == 4,
        forall|i: int|
            0 <= i < run(world).actions.len() ==> !is_database_call(
                #[trigger] run(world).actions[i],
            ),
        run(world).world == world,
{
    reveal_with_fuel(run_from, 9);
}

/// A provider that cannot be reached fails the request with the network
/// error that carries the cause. The client gets status 500 with the fixed
/// error body, no action reaches the database, and no row is added.
pub proof fn lemma_unreachable_provider_stores_nothing(world: World, cause: Seq<char>)
    requires
        world.api_configured(),
        world.provider == ProviderReplyView::Unreachable(cause),
    ensures
        run(world).served == Some(
            Err::<Seq<char>, SessionErrorView>(SessionErrorView::Network(cause)),
        ),
        run(world).reply() == (HttpReplyView { status: 500, body: ERROR_BODY@ }),
        run(world).actions.len() == 3,
        run(world).actions[1] == ActionView::Send(
            request_of(
                creator_of(
                    world.setting(ConfigKey::AuthToken),
                    world.setting(ConfigKey::ApiEndpoint),
                )->Ok_0,
            ),
        ),
        forall|i: int|
            0 <= i < run(world).actions.len() ==> !is_database_call(
                #[trigger] run(world).actions[i],
            ),
        run(world).world == world,
{
    reveal_with_fuel(run_from, 9);
}

/// A request never removes or changes a row, and adds one at most: after
/// it the relation holds the rows that it held, or those and one more.
pub proof fn lemma_rows_are_only_added(world: World)
    ensures
        run(world).world.table.rows == world.table.rows || (run(world).world.table.rows.len()
            == world.table.rows.len() + 1 && run(world).world.table.rows.drop_last()
            == world.table.rows),
        run(world).world.settings == world.settings,
{
    reveal_with_fuel(run_from, 9);
}

/// The client gets one of two answers: status 200 with the launch URL that
/// the request was served with, or, whatever went wrong, status 500 with
/// the one fixed body.
pub proof fn lemma_reply_is_launch_url_or_error_body(world: World)
    ensures
        match run(world).served {
            Some(Ok(launch_url)) => run(world).reply() == (HttpReplyView {
                status: 200,
                body: launch_url,
            }),
            Some(Err(_)) => run(world).reply() == (HttpReplyView { status: 500, body: ERROR_BODY@ }),
            None => false,
        },
{
    lemma_every_request_is_answered(world);
}

} // verus!
