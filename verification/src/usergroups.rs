//! User groups: named sets of the members of a team.

use crate::call::{outcome_of, send_get, send_post, CallError, Request, Response};
use crate::decode::{
    count_fits, count_of, counted, flag_fits, flag_of, given, object, optional_count,
    optional_flag, optional_text, optional_text_list, present, required_text, status, status_fits,
    status_holds, text_fits, text_list_fits, text_list_of, text_of, DecodeError,
};
use crate::json::{items, json_of, models, Json};
use crate::params::{
    assemble, collect, flag_slot, flag_value, lemma_present_field_sends_one, named_once,
    required_slot, slot, slots_of, text_slot, Field,
};
use crate::slack_url;
use crate::transport::SlackWebRequestSender;
use vstd::prelude::*;

verus! {

/// A user group, as Slack describes it in its answers.
#[derive(Clone, Debug, PartialEq, Eq)]
pub struct Usergroup {
    pub id: String,
    pub team_id: Option<String>,
    pub name: Option<String>,
    pub handle: Option<String>,
    pub description: Option<String>,
    pub is_external: Option<bool>,
    /// When the group was made, in seconds since 1970.
    pub date_create: Option<u64>,
    pub date_update: Option<u64>,
    /// When the group was disabled, or 0.
    pub date_delete: Option<u64>,
    pub created_by: Option<String>,
    pub updated_by: Option<String>,
    pub deleted_by: Option<String>,
    /// The ids of the users of the group, where they were asked for.
    pub users: Option<Vec<String>>,
}

impl Usergroup {
    /// Whether `json` has the shape of a user group: an object with a text `id`, and with
    /// every other member of its type or absent.
    pub open spec fn fits(json: Json) -> bool {
        &&& json is Object
        &&& text_of(json, "id"@) is Some
        &&& text_fits(json, "team_id"@)
        &&& text_fits(json, "name"@)
        &&& text_fits(json, "handle"@)
        &&& text_fits(json, "description"@)
        &&& flag_fits(json, "is_external"@)
        &&& count_fits(json, "date_create"@)
        &&& count_fits(json, "date_update"@)
        &&& count_fits(json, "date_delete"@)
        &&& text_fits(json, "created_by"@)
        &&& text_fits(json, "updated_by"@)
        &&& text_fits(json, "deleted_by"@)
        &&& text_list_fits(json, "users"@)
    }

    /// Whether each field of the group is what `json` holds under the field's name.
    pub open spec fn holds(&self, json: Json) -> bool {
        &&& Some(self.id@) == text_of(json, "id"@)
        &&& self.team_id.deep_view() == text_of(json, "team_id"@)
        &&& self.name.deep_view() == text_of(json, "name"@)
        &&& self.handle.deep_view() == text_of(json, "handle"@)
        &&& self.description.deep_view() == text_of(json, "description"@)
        &&& self.is_external == flag_of(json, "is_external"@)
        &&& counted(self.date_create) == count_of(json, "date_create"@)
        &&& counted(self.date_update) == count_of(json, "date_update"@)
        &&& counted(self.date_delete) == count_of(json, "date_delete"@)
        &&& self.created_by.deep_view() == text_of(json, "created_by"@)
        &&& self.updated_by.deep_view() == text_of(json, "updated_by"@)
        &&& self.deleted_by.deep_view() == text_of(json, "deleted_by"@)
        &&& self.users.deep_view() == text_list_of(json, "users"@)
    }
}

/// An absent member fits a field for one user group, and so does a user group.
pub open spec fn usergroup_fits(json: Json, name: Seq<char>) -> bool {
    given(json, name) matches Some(inner) ==> Usergroup::fits(inner)
}

/// Whether `group` is what `json` holds under `name`.
pub open spec fn usergroup_holds(group: Option<Usergroup>, json: Json, name: Seq<char>) -> bool {
    match (group, given(json, name)) {
        (Some(g), Some(inner)) => g.holds(inner),
        (None, None) => true,
        _ => false,
    }
}

/// Every element is a user group.
pub open spec fn all_usergroups(list: Seq<Json>) -> bool {
    forall|i: int| 0 <= i < list.len() ==> Usergroup::fits(#[trigger] list[i])
}

/// An absent member fits a field that lists user groups, and so does an array of them.
pub open spec fn usergroups_fit(json: Json, name: Seq<char>) -> bool {
    given(json, name) matches Some(inner) ==> inner matches Json::Array(list) && all_usergroups(
        list,
    )
}

/// Whether `groups` are the elements of `list`, one for one and in their order.
pub open spec fn each_holds(groups: Seq<Usergroup>, list: Seq<Json>) -> bool {
    &&& groups.len() == list.len()
    &&& forall|i: int| 0 <= i < groups.len() ==> (#[trigger] groups[i]).holds(list[i])
}

/// Whether `groups` are what `json` holds under `name`.
pub open spec fn usergroups_hold(
    groups: Option<Vec<Usergroup>>,
    json: Json,
    name: Seq<char>,
) -> bool {
    match (groups, given(json, name)) {
        (Some(g), Some(Json::Array(list))) => each_holds(g@, list),
        (None, None) => true,
        _ => false,
    }
}

/// Whether `json` has the shape of an answer about one user group.
pub open spec fn single_fits(json: Json) -> bool {
    &&& status_fits(json)
    &&& usergroup_fits(json, "usergroup"@)
}

/// Whether the three fields are what `json` holds under their names.
pub open spec fn single_holds(
    ok: bool,
    error: Option<String>,
    usergroup: Option<Usergroup>,
    json: Json,
) -> bool {
    &&& status_holds(ok, error, json)
    &&& usergroup_holds(usergroup, json, "usergroup"@)
}

/// Decodes one user group.
pub fn decode_usergroup(value: &serde_json::Value) -> (decoded: Result<Usergroup, DecodeError>)
    ensures
        Usergroup::fits(json_of(*value)) ==> decoded is Ok && decoded->Ok_0.holds(json_of(*value)),
        !Usergroup::fits(json_of(*value)) ==> decoded == Err::<Usergroup, DecodeError>(
            DecodeError::Shape,
        ),
{
    if !object(value) {
        return Err(DecodeError::Shape);
    }
    let id = match required_text(value, "id") {
        Ok(id) => id,
        Err(e) => { return Err(e); },
    };
    let team_id = match optional_text(value, "team_id") {
        Ok(team_id) => team_id,
        Err(e) => { return Err(e); },
    };
    let name = match optional_text(value, "name") {
        Ok(name) => name,
        Err(e) => { return Err(e); },
    };
    let handle = match optional_text(value, "handle") {
        Ok(handle) => handle,
        Err(e) => { return Err(e); },
    };
    let description = match optional_text(value, "description") {
        Ok(description) => description,
        Err(e) => { return Err(e); },
    };
    let is_external = match optional_flag(value, "is_external") {
        Ok(is_external) => is_external,
        Err(e) => { return Err(e); },
    };
    let date_create = match optional_count(value, "date_create") {
        Ok(date_create) => date_create,
        Err(e) => { return Err(e); },
    };
    let date_update = match optional_count(value, "date_update") {
        Ok(date_update) => date_update,
        Err(e) => { return Err(e); },
    };
    let date_delete = match optional_count(value, "date_delete") {
        Ok(date_delete) => date_delete,
        Err(e) => { return Err(e); },
    };
    let created_by = match optional_text(value, "created_by") {
        Ok(created_by) => created_by,
        Err(e) => { return Err(e); },
    };
    let updated_by = match optional_text(value, "updated_by") {
        Ok(updated_by) => updated_by,
        Err(e) => { return Err(e); },
    };
    let deleted_by = match optional_text(value, "deleted_by") {
        Ok(deleted_by) => deleted_by,
        Err(e) => { return Err(e); },
    };
    let users = match optional_text_list(value, "users") {
        Ok(users) => users,
        Err(e) => { return Err(e); },
    };
    Ok(
        Usergroup {
            id,
            team_id,
            name,
            handle,
            description,
            is_external,
            date_create,
            date_update,
            date_delete,
            created_by,
            updated_by,
            deleted_by,
            users,
        },
    )
}

/// Reads the field `name` that holds one user group.
pub fn optional_usergroup(value: &serde_json::Value, name: &str) -> (field: Result<
    Option<Usergroup>,
    DecodeError,
>)
    ensures
        usergroup_fits(json_of(*value), name@) ==> field is Ok && usergroup_holds(
            field->Ok_0,
            json_of(*value),
            name@,
        ),
        !usergroup_fits(json_of(*value), name@) ==> field == Err::<Option<Usergroup>, DecodeError>(
            DecodeError::Shape,
        ),
{
    match present(value, name) {
        None => Ok(None),
        Some(inner) => match decode_usergroup(inner) {
            Ok(group) => Ok(Some(group)),
            Err(e) => Err(e),
        },
    }
}

/// Reads the field `name` that lists user groups.
pub fn optional_usergroups(value: &serde_json::Value, name: &str) -> (field: Result<
    Option<Vec<Usergroup>>,
    DecodeError,
>)
    ensures
        usergroups_fit(json_of(*value), name@) ==> field is Ok && usergroups_hold(
            field->Ok_0,
            json_of(*value),
            name@,
        ),
        !usergroups_fit(json_of(*value), name@) ==> field == Err::<
            Option<Vec<Usergroup>>,
            DecodeError,
        >(DecodeError::Shape),
{
    let inner = match present(value, name) {
        None => { return Ok(None); },
        Some(inner) => inner,
    };
    let elements = match items(inner) {
        None => { return Err(DecodeError::Shape); },
        Some(elements) => elements,
    };
    let ghost list = models(elements@);
    let mut groups: Vec<Usergroup> = Vec::new();
    let mut i: usize = 0;
    while i < elements.len()
        invariant
            i <= elements.len(),
            list == models(elements@),
            given(json_of(*value), name@) == Some(Json::Array(list)),
            groups@.len() == i,
            forall|k: int| 0 <= k < i ==> Usergroup::fits(#[trigger] list[k]),
            forall|k: int| 0 <= k < i ==> (#[trigger] groups@[k]).holds(list[k]),
        decreases elements.len() - i,
    {
        match decode_usergroup(&elements[i]) {
            Ok(group) => {
                groups.push(group);
            },
            Err(e) => {
                assert(!Usergroup::fits(list[i as int]));
                return Err(e);
            },
        }
        i = i + 1;
    }
    assert(all_usergroups(list));
    Ok(Some(groups))
}

/// Decodes an answer about one user group into `ok`, `error` and the group.
pub fn decode_single(value: &serde_json::Value) -> (decoded: Result<
    (bool, Option<String>, Option<Usergroup>),
    DecodeError,
>)
    ensures
        single_fits(json_of(*value)) ==> decoded is Ok && single_holds(
            decoded->Ok_0.0,
            decoded->Ok_0.1,
            decoded->Ok_0.2,
            json_of(*value),
        ),
        !single_fits(json_of(*value)) ==> decoded == Err::<
            (bool, Option<String>, Option<Usergroup>),
            DecodeError,
        >(DecodeError::Shape),
{
    let (ok, error) = match status(value) {
        Ok(read) => read,
        Err(e) => { return Err(e); },
    };
    match optional_usergroup(value, "usergroup") {
        Ok(usergroup) => Ok((ok, error, usergroup)),
        Err(e) => Err(e),
    }
}

/// What `usergroups.create` takes.
#[derive(Clone, Debug, Default)]
pub struct CreateRequest {
    /// The channels that members are added to by default, separated by commas.
    pub channels: Option<String>,
    /// What the group is for.
    pub description: Option<String>,
    /// The name by which the group is mentioned.
    pub handle: Option<String>,
    /// Whether to count the users of the group.
    pub include_count: Option<bool>,
    /// The name of the group, unique among the groups of the team.
    pub name: String,
}

/// What `usergroups.create` answers.
#[derive(Clone, Debug, PartialEq, Eq)]
pub struct CreateResponse {
    /// Whether Slack carried the call out.
    pub ok: bool,
    /// Slack's code for what went wrong, where `ok` is `false`.
    pub error: Option<String>,
    /// The group as it is after the call.
    pub usergroup: Option<Usergroup>,
}

/// How a call of `usergroups.create` fails.
pub type CreateError<E> = CallError<E>;

impl Request for CreateRequest {
    open spec fn fields(&self) -> Seq<Field> {
        seq![
            Field { name: "channels"@, value: self.channels.deep_view() },
            Field { name: "description"@, value: self.description.deep_view() },
            Field { name: "handle"@, value: self.handle.deep_view() },
            Field { name: "include_count"@, value: flag_value(self.include_count) },
            Field { name: "name"@, value: Some(self.name@) },
        ]
    }

    proof fn lemma_names_differ(&self) {
        reveal_strlit("channels");
        reveal_strlit("description");
        reveal_strlit("handle");
        reveal_strlit("include_count");
        reveal_strlit("name");
        assert({
            &&& "channels"@.len() == 8
            &&& "description"@.len() == 11
            &&& "handle"@.len() == 6
            &&& "include_count"@.len() == 13
            &&& "name"@.len() == 4
        });
    }

    fn params(&self) -> (params: Vec<(&'static str, String)>) {
        let channels = text_slot("channels", &self.channels);
        let description = text_slot("description", &self.description);
        let handle = text_slot("handle", &self.handle);
        let include_count = flag_slot("include_count", &self.include_count);
        let name = required_slot("name", &self.name);
        let slots = vec![channels, description, handle, include_count, name];
        assert(slots_of(slots@) =~= self.fields().map_values(|field: Field| slot(field)));
        collect(slots)
    }
}

impl CreateRequest {
    /// `name` is sent with every request, once and as it stands.
    pub proof fn lemma_name_always_sent(&self)
        ensures
            named_once(assemble(self.fields()), "name"@, self.name@),
    {
        self.lemma_names_differ();
        lemma_present_field_sends_one(self.fields(), 4);
    }
}

impl Response for CreateResponse {
    open spec fn fits(json: Json) -> bool {
        single_fits(json)
    }

    open spec fn holds(&self, json: Json) -> bool {
        single_holds(self.ok, self.error, self.usergroup, json)
    }

    fn decode(value: &serde_json::Value) -> (decoded: Result<Self, DecodeError>) {
        match decode_single(value) {
            Ok((ok, error, usergroup)) => Ok(CreateResponse { ok, error, usergroup }),
            Err(e) => Err(e),
        }
    }
}

/// Create a User Group.
///
/// Sends one POST to `usergroups.create` with the parameter list of `request` as the form and no
/// headers of its own, and decodes what comes back.
pub fn create<R: SlackWebRequestSender>(
    client: &R,
    request: &CreateRequest,
) -> (result: Result<CreateResponse, CreateError<R::Error>>)
    ensures
        exists|reply: Result<String, R::Error>|
            client.post_yields(
                slack_url("/usergroups.create"@),
                assemble(request.fields()),
                Seq::empty(),
                reply,
            ) && #[trigger] outcome_of(reply, result),
{
    send_post(client, "/usergroups.create", request)
}

/// What `usergroups.disable` takes.
#[derive(Clone, Debug, Default)]
pub struct DisableRequest {
    /// Whether to count the users of the group.
    pub include_count: Option<bool>,
    /// The id of the group to disable.
    pub usergroup: String,
}

/// What `usergroups.disable` answers.
#[derive(Clone, Debug, PartialEq, Eq)]
pub struct DisableResponse {
    /// Whether Slack carried the call out.
    pub ok: bool,
    /// Slack's code for what went wrong, where `ok` is `false`.
    pub error: Option<String>,
    /// The group as it is after the call.
    pub usergroup: Option<Usergroup>,
}

/// How a call of `usergroups.disable` fails.
pub type DisableError<E> = CallError<E>;

impl Request for DisableRequest {
    open spec fn fields(&self) -> Seq<Field> {
        seq![
            Field { name: "include_count"@, value: flag_value(self.include_count) },
            Field { name: "usergroup"@, value: Some(self.usergroup@) },
        ]
    }

    proof fn lemma_names_differ(&self) {
        reveal_strlit("include_count");
        reveal_strlit("usergroup");
        assert({
            &&& "include_count"@.len() == 13
            &&& "usergroup"@.len() == 9
        });
    }

    fn params(&self) -> (params: Vec<(&'static str, String)>) {
        let include_count = flag_slot("include_count", &self.include_count);
        let usergroup = required_slot("usergroup", &self.usergroup);
        let slots = vec![include_count, usergroup];
        assert(slots_of(slots@) =~= self.fields().map_values(|field: Field| slot(field)));
        collect(slots)
    }
}

impl DisableRequest {
    /// `usergroup` is sent with every request, once and as it stands.
    pub proof fn lemma_usergroup_always_sent(&self)
        ensures
            named_once(assemble(self.fields()), "usergroup"@, self.usergroup@),
    {
        self.lemma_names_differ();
        lemma_present_field_sends_one(self.fields(), 1);
    }
}

impl Response for DisableResponse {
    open spec fn fits(json: Json) -> bool {
        single_fits(json)
    }

    open spec fn holds(&self, json: Json) -> bool {
        single_holds(self.ok, self.error, self.usergroup, json)
    }

    fn decode(value: &serde_json::Value) -> (decoded: Result<Self, DecodeError>) {
        match decode_single(value) {
            Ok((ok, error, usergroup)) => Ok(DisableResponse { ok, error, usergroup }),
            Err(e) => Err(e),
        }
    }
}

/// Disable an existing User Group.
///
/// Sends one POST to `usergroups.disable` with the parameter list of `request` as the form and no
/// headers of its own, and decodes what comes back.
pub fn disable<R: SlackWebRequestSender>(
    client: &R,
    request: &DisableRequest,
) -> (result: Result<DisableResponse, DisableError<R::Error>>)
    ensures
        exists|reply: Result<String, R::Error>|
            client.post_yields(
                slack_url("/usergroups.disable"@),
                assemble(request.fields()),
                Seq::empty(),
                reply,
            ) && #[trigger] outcome_of(reply, result),
{
    send_post(client, "/usergroups.disable", request)
}

/// What `usergroups.enable` takes.
#[derive(Clone, Debug, Default)]
pub struct EnableRequest {
    /// Whether to count the users of the group.
    pub include_count: Option<bool>,
    /// The id of the group to enable.
    pub usergroup: String,
}

/// What `usergroups.enable` answers.
#[derive(Clone, Debug, PartialEq, Eq)]
pub struct EnableResponse {
    /// Whether Slack carried the call out.
    pub ok: bool,
    /// Slack's code for what went wrong, where `ok` is `false`.
    pub error: Option<String>,
    /// The group as it is after the call.
    pub usergroup: Option<Usergroup>,
}

/// How a call of `usergroups.enable` fails.
pub type EnableError<E> = CallError<E>;

impl Request for EnableRequest {
    open spec fn fields(&self) -> Seq<Field> {
        seq![
            Field { name: "include_count"@, value: flag_value(self.include_count) },
            Field { name: "usergroup"@, value: Some(self.usergroup@) },
        ]
    }

    proof fn lemma_names_differ(&self) {
        reveal_strlit("include_count");
        reveal_strlit("usergroup");
        assert({
            &&& "include_count"@.len() == 13
            &&& "usergroup"@.len() == 9
        });
    }

    fn params(&self) -> (params: Vec<(&'static str, String)>) {
        let include_count = flag_slot("include_count", &self.include_count);
        let usergroup = required_slot("usergroup", &self.usergroup);
        let slots = vec![include_count, usergroup];
        assert(slots_of(slots@) =~= self.fields().map_values(|field: Field| slot(field)));
        collect(slots)
    }
}

impl EnableRequest {
    /// `usergroup` is sent with every request, once and as it stands.
    pub proof fn lemma_usergroup_always_sent(&self)
        ensures
            named_once(assemble(self.fields()), "usergroup"@, self.usergroup@),
    {
        self.lemma_names_differ();
        lemma_present_field_sends_one(self.fields(), 1);
    }
}

impl Response for EnableResponse {
    open spec fn fits(json: Json) -> bool {
        single_fits(json)
    }

    open spec fn holds(&self, json: Json) -> bool {
        single_holds(self.ok, self.error, self.usergroup, json)
    }

    fn decode(value: &serde_json::Value) -> (decoded: Result<Self, DecodeError>) {
        match decode_single(value) {
            Ok((ok, error, usergroup)) => Ok(EnableResponse { ok, error, usergroup }),
            Err(e) => Err(e),
        }
    }
}

/// Enable a User Group.
///
/// Sends one POST to `usergroups.enable` with the parameter list of `request` as the form and no
/// headers of its own, and decodes what comes back.
pub fn enable<R: SlackWebRequestSender>(
    client: &R,
    request: &EnableRequest,
) -> (result: Result<EnableResponse, EnableError<R::Error>>)
    ensures
        exists|reply: Result<String, R::Error>|
            client.post_yields(
                slack_url("/usergroups.enable"@),
                assemble(request.fields()),
                Seq::empty(),
                reply,
            ) && #[trigger] outcome_of(reply, result),
{
    send_post(client, "/usergroups.enable", request)
}

/// What `usergroups.list` takes.
#[derive(Clone, Debug, Default)]
pub struct ListRequest {
    /// Whether to count the users of each group.
    pub include_count: Option<bool>,
    /// Whether to list disabled groups too.
    pub include_disabled: Option<bool>,
    /// Whether to list the users of each group.
    pub include_users: Option<bool>,
}

/// What `usergroups.list` answers.
#[derive(Clone, Debug, PartialEq, Eq)]
pub struct ListResponse {
    /// Whether Slack carried the call out.
    pub ok: bool,
    /// Slack's code for what went wrong, where `ok` is `false`.
    pub error: Option<String>,
    /// The groups of the team.
    pub usergroups: Option<Vec<Usergroup>>,
}

/// How a call of `usergroups.list` fails.
pub type ListError<E> = CallError<E>;

impl Request for ListRequest {
    open spec fn fields(&self) -> Seq<Field> {
        seq![
            Field { name: "include_count"@, value: flag_value(self.include_count) },
            Field { name: "include_disabled"@, value: flag_value(self.include_disabled) },
            Field { name: "include_users"@, value: flag_value(self.include_users) },
        ]
    }

    proof fn lemma_names_differ(&self) {
        reveal_strlit("include_count");
        reveal_strlit("include_disabled");
        reveal_strlit("include_users");
        assert({
            &&& "include_count"@.len() == 13
            &&& "include_disabled"@.len() == 16
            &&& "include_users"@.len() == 13
        });
        assert("include_count"@[8] == 'c' && "include_users"@[8] == 'u');
    }

    fn params(&self) -> (params: Vec<(&'static str, String)>) {
        let include_count = flag_slot("include_count", &self.include_count);
        let include_disabled = flag_slot("include_disabled", &self.include_disabled);
        let include_users = flag_slot("include_users", &self.include_users);
        let slots = vec![include_count, include_disabled, include_users];
        assert(slots_of(slots@) =~= self.fields().map_values(|field: Field| slot(field)));
        collect(slots)
    }
}

impl Response for ListResponse {
    open spec fn fits(json: Json) -> bool {
        &&& status_fits(json)
        &&& usergroups_fit(json, "usergroups"@)
    }

    open spec fn holds(&self, json: Json) -> bool {
        &&& status_holds(self.ok, self.error, json)
        &&& usergroups_hold(self.usergroups, json, "usergroups"@)
    }

    fn decode(value: &serde_json::Value) -> (decoded: Result<Self, DecodeError>) {
        let (ok, error) = match status(value) {
            Ok(read) => read,
            Err(e) => { return Err(e); },
        };
        match optional_usergroups(value, "usergroups") {
            Ok(usergroups) => Ok(ListResponse { ok, error, usergroups }),
            Err(e) => Err(e),
        }
    }
}

/// List all User Groups for a team.
///
/// Sends one GET to `usergroups.list` with the parameter list of `request` as the
/// query, and decodes what comes back.
pub fn list<R: SlackWebRequestSender>(
    client: &R,
    request: &ListRequest,
) -> (result: Result<ListResponse, ListError<R::Error>>)
    ensures
        exists|reply: Result<String, R::Error>|
            client.get_yields(slack_url("/usergroups.list"@), assemble(request.fields()), reply)
                && #[trigger] outcome_of(reply, result),
{
    send_get(client, "/usergroups.list", request)
}

/// What `usergroups.update` takes.
#[derive(Clone, Debug, Default)]
pub struct UpdateRequest {
    /// The channels that members are added to by default, separated by commas.
    pub channels: Option<String>,
    /// What the group is for.
    pub description: Option<String>,
    /// The name by which the group is mentioned.
    pub handle: Option<String>,
    /// Whether to count the users of the group.
    pub include_count: Option<bool>,
    /// The new name of the group.
    pub name: Option<String>,
    /// The id of the group to update.
    pub usergroup: String,
}

/// What `usergroups.update` answers.
#[derive(Clone, Debug, PartialEq, Eq)]
pub struct UpdateResponse {
    /// Whether Slack carried the call out.
    pub ok: bool,
    /// Slack's code for what went wrong, where `ok` is `false`.
    pub error: Option<String>,
    /// The group as it is after the call.
    pub usergroup: Option<Usergroup>,
}

/// How a call of `usergroups.update` fails.
pub type UpdateError<E> = CallError<E>;

impl Request for UpdateRequest {
    open spec fn fields(&self) -> Seq<Field> {
        seq![
            Field { name: "channels"@, value: self.channels.deep_view() },
            Field { name: "description"@, value: self.description.deep_view() },
            Field { name: "handle"@, value: self.handle.deep_view() },
            Field { name: "include_count"@, value: flag_value(self.include_count) },
            Field { name: "name"@, value: self.name.deep_view() },
            Field { name: "usergroup"@, value: Some(self.usergroup@) },
        ]
    }

    proof fn lemma_names_differ(&self) {
        reveal_strlit("channels");
        reveal_strlit("description");
        reveal_strlit("handle");
        reveal_strlit("include_count");
        reveal_strlit("name");
        reveal_strlit("usergroup");
        assert({
            &&& "channels"@.len() == 8
            &&& "description"@.len() == 11
            &&& "handle"@.len() == 6
            &&& "include_count"@.len() == 13
            &&& "name"@.len() == 4
            &&& "usergroup"@.len() == 9
        });
    }

    fn params(&self) -> (params: Vec<(&'static str, String)>) {
        let channels = text_slot("channels", &self.channels);
        let description = text_slot("description", &self.description);
        let handle = text_slot("handle", &self.handle);
        let include_count = flag_slot("include_count", &self.include_count);
        let name = text_slot("name", &self.name);
        let usergroup = required_slot("usergroup", &self.usergroup);
        let slots = vec![channels, description, handle, include_count, name, usergroup];
        assert(slots_of(slots@) =~= self.fields().map_values(|field: Field| slot(field)));
        collect(slots)
    }
}

impl UpdateRequest {
    /// `usergroup` is sent with every request, once and as it stands.
    pub proof fn lemma_usergroup_always_sent(&self)
        ensures
            named_once(assemble(self.fields()), "usergroup"@, self.usergroup@),
    {
        self.lemma_names_differ();
        lemma_present_field_sends_one(self.fields(), 5);
    }
}

impl Response for UpdateResponse {
    open spec fn fits(json: Json) -> bool {
        single_fits(json)
    }

    open spec fn holds(&self, json: Json) -> bool {
        single_holds(self.ok, self.error, self.usergroup, json)
    }

    fn decode(value: &serde_json::Value) -> (decoded: Result<Self, DecodeError>) {
        match decode_single(value) {
            Ok((ok, error, usergroup)) => Ok(UpdateResponse { ok, error, usergroup }),
            Err(e) => Err(e),
        }
    }
}

/// Update an existing User Group.
///
/// Sends one POST to `usergroups.update` with the parameter list of `request` as the form and no
/// headers of its own, and decodes what comes back.
pub fn update<R: SlackWebRequestSender>(
    client: &R,
    request: &UpdateRequest,
) -> (result: Result<UpdateResponse, UpdateError<R::Error>>)
    ensures
        exists|reply: Result<String, R::Error>|
            client.post_yields(
                slack_url("/usergroups.update"@),
                assemble(request.fields()),
                Seq::empty(),
                reply,
            ) && #[trigger] outcome_of(reply, result),
{
    send_post(client, "/usergroups.update", request)
}

} // verus!
