//! Moving a workspace into an Enterprise Grid organisation.

use crate::call::{outcome_of, send_get, CallError, Request, Response};
use crate::decode::{
    optional_text, optional_text_list, optional_text_map, spells_field, status, status_fits,
    status_holds, text_fits, text_list_fits, text_list_of, text_map_fits, text_map_of, text_of,
    DecodeError,
};
use crate::json::Json;
use crate::params::{
    assemble, collect, flag_slot, flag_value, lemma_present_field_sends_one, named_once,
    required_slot, slot, slots_of, text_slot, Field,
};
use crate::slack_url;
use crate::transport::SlackWebRequestSender;
use vstd::prelude::*;

verus! {

/// What `migration.exchange` takes.
#[derive(Clone, Debug, Default)]
pub struct ExchangeRequest {
    /// The team to look in, where the token is one of an organisation.
    pub team_id: Option<String>,
    /// Whether to map global user ids back to those of the workspace.
    pub to_old: Option<bool>,
    /// The user ids to map, separated by commas.
    pub users: String,
}

/// What `migration.exchange` answers.
#[derive(Clone, Debug, PartialEq, Eq)]
pub struct ExchangeResponse {
    /// Whether Slack carried the call out.
    pub ok: bool,
    /// Slack's code for what went wrong, where `ok` is `false`.
    pub error: Option<String>,
    pub team_id: Option<String>,
    pub enterprise_id: Option<String>,
    /// Each user id that could be mapped, with the id it maps to. The pairs come in no
    /// stated order.
    pub user_id_map: Option<Vec<(String, String)>>,
    pub invalid_user_ids: Option<Vec<String>>,
}

/// How a call of `migration.exchange` fails.
pub type ExchangeError<E> = CallError<E>;

impl Request for ExchangeRequest {
    open spec fn fields(&self) -> Seq<Field> {
        seq![
            Field { name: "team_id"@, value: self.team_id.deep_view() },
            Field { name: "to_old"@, value: flag_value(self.to_old) },
            Field { name: "users"@, value: Some(self.users@) },
        ]
    }

    proof fn lemma_names_differ(&self) {
        reveal_strlit("team_id");
        reveal_strlit("to_old");
        reveal_strlit("users");
        assert({
            &&& "team_id"@.len() == 7
            &&& "to_old"@.len() == 6
            &&& "users"@.len() == 5
        });
    }

    fn params(&self) -> (params: Vec<(&'static str, String)>) {
        let team_id = text_slot("team_id", &self.team_id);
        let to_old = flag_slot("to_old", &self.to_old);
        let users = required_slot("users", &self.users);
        let slots = vec![team_id, to_old, users];
        assert(slots_of(slots@) =~= self.fields().map_values(|field: Field| slot(field)));
        collect(slots)
    }
}

impl ExchangeRequest {
    /// `users` is sent with every request, once and as it stands.
    pub proof fn lemma_users_always_sent(&self)
        ensures
            named_once(assemble(self.fields()), "users"@, self.users@),
    {
        self.lemma_names_differ();
        lemma_present_field_sends_one(self.fields(), 2);
    }
}

impl Response for ExchangeResponse {
    open spec fn fits(json: Json) -> bool {
        &&& status_fits(json)
        &&& text_fits(json, "team_id"@)
        &&& text_fits(json, "enterprise_id"@)
        &&& text_map_fits(json, "user_id_map"@)
        &&& text_list_fits(json, "invalid_user_ids"@)
    }

    open spec fn holds(&self, json: Json) -> bool {
        &&& status_holds(self.ok, self.error, json)
        &&& self.team_id.deep_view() == text_of(json, "team_id"@)
        &&& self.enterprise_id.deep_view() == text_of(json, "enterprise_id"@)
        &&& spells_field(self.user_id_map.deep_view(), text_map_of(json, "user_id_map"@))
        &&& self.invalid_user_ids.deep_view() == text_list_of(json, "invalid_user_ids"@)
    }

    fn decode(value: &serde_json::Value) -> (decoded: Result<Self, DecodeError>) {
        let (ok, error) = match status(value) {
            Ok(read) => read,
            Err(e) => { return Err(e); },
        };
        let team_id = match optional_text(value, "team_id") {
            Ok(team_id) => team_id,
            Err(e) => { return Err(e); },
        };
        let enterprise_id = match optional_text(value, "enterprise_id") {
            Ok(enterprise_id) => enterprise_id,
            Err(e) => { return Err(e); },
        };
        let user_id_map = match optional_text_map(value, "user_id_map") {
            Ok(user_id_map) => user_id_map,
            Err(e) => { return Err(e); },
        };
        let invalid_user_ids = match optional_text_list(value, "invalid_user_ids") {
            Ok(invalid_user_ids) => invalid_user_ids,
            Err(e) => { return Err(e); },
        };
        Ok(ExchangeResponse { ok, error, team_id, enterprise_id, user_id_map, invalid_user_ids })
    }
}

/// For Enterprise Grid workspaces, map local user IDs to global user IDs.
///
/// Sends one GET to `migration.exchange` with the parameter list of `request` as the
/// query, and decodes what comes back.
pub fn exchange<R: SlackWebRequestSender>(
    client: &R,
    request: &ExchangeRequest,
) -> (result: Result<ExchangeResponse, ExchangeError<R::Error>>)
    ensures
        exists|reply: Result<String, R::Error>|
            client.get_yields(slack_url("/migration.exchange"@), assemble(request.fields()), reply)
                && #[trigger] outcome_of(reply, result),
{
    send_get(client, "/migration.exchange", request)
}

} // verus!
