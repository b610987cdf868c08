//! Steps of workflows that an app runs.

use crate::call::{outcome_of, send_get, CallError, Request, Response};
use crate::decode::{status, status_fits, status_holds, DecodeError};
use crate::json::Json;
use crate::params::{
    assemble, collect, lemma_present_field_sends_one, named_once, required_slot, slot, slots_of,
    text_slot, Field,
};
use crate::slack_url;
use crate::transport::SlackWebRequestSender;
use vstd::prelude::*;

verus! {

/// What `workflows.stepCompleted` takes.
#[derive(Clone, Debug, Default)]
pub struct StepCompletedRequest {
    /// What the step gives to later steps, as a JSON object of its own.
    pub outputs: Option<String>,
    /// The execution that the step belongs to.
    pub workflow_step_execute_id: String,
}

/// What `workflows.stepCompleted` answers.
#[derive(Clone, Debug, PartialEq, Eq)]
pub struct StepCompletedResponse {
    /// Whether Slack carried the call out.
    pub ok: bool,
    /// Slack's code for what went wrong, where `ok` is `false`.
    pub error: Option<String>,
}

/// How a call of `workflows.stepCompleted` fails.
pub type StepCompletedError<E> = CallError<E>;

impl Request for StepCompletedRequest {
    open spec fn fields(&self) -> Seq<Field> {
        seq![
            Field { name: "outputs"@, value: self.outputs.deep_view() },
            Field {
                name: "workflow_step_execute_id"@,
                value: Some(self.workflow_step_execute_id@),
            },
        ]
    }

    proof fn lemma_names_differ(&self) {
        reveal_strlit("outputs");
        reveal_strlit("workflow_step_execute_id");
        assert({
            &&& "outputs"@.len() == 7
            &&& "workflow_step_execute_id"@.len() == 24
        });
    }

    fn params(&self) -> (params: Vec<(&'static str, String)>) {
        let outputs = text_slot("outputs", &self.outputs);
        let workflow_step_execute_id = required_slot(
            "workflow_step_execute_id",
            &self.workflow_step_execute_id,
        );
        let slots = vec![outputs, workflow_step_execute_id];
        assert(slots_of(slots@) =~= self.fields().map_values(|field: Field| slot(field)));
        collect(slots)
    }
}

impl StepCompletedRequest {
    /// `workflow_step_execute_id` is sent with every request, once and as it stands.
    pub proof fn lemma_workflow_step_execute_id_always_sent(&self)
        ensures
            named_once(
                assemble(self.fields()),
                "workflow_step_execute_id"@,
                self.workflow_step_execute_id@,
            ),
    {
        self.lemma_names_differ();
        lemma_present_field_sends_one(self.fields(), 1);
    }
}

impl Response for StepCompletedResponse {
    open spec fn fits(json: Json) -> bool {
        status_fits(json)
    }

    open spec fn holds(&self, json: Json) -> bool {
        status_holds(self.ok, self.error, json)
    }

    fn decode(value: &serde_json::Value) -> (decoded: Result<Self, DecodeError>) {
        match status(value) {
            Ok((ok, error)) => Ok(StepCompletedResponse { ok, error }),
            Err(e) => Err(e),
        }
    }
}

/// Indicate that an app's step in a workflow completed execution.
///
/// Sends one GET to `workflows.stepCompleted` with the parameter list of `request` as the
/// query, and decodes what comes back.
pub fn step_completed<R: SlackWebRequestSender>(
    client: &R,
    request: &StepCompletedRequest,
) -> (result: Result<StepCompletedResponse, StepCompletedError<R::Error>>)
    ensures
        exists|reply: Result<String, R::Error>|
            client.get_yields(
                slack_url("/workflows.stepCompleted"@),
                assemble(request.fields()),
                reply,
            ) && #[trigger] outcome_of(reply, result),
{
    send_get(client, "/workflows.stepCompleted", request)
}

/// What `workflows.stepFailed` takes.
#[derive(Clone, Debug, Default)]
pub struct StepFailedRequest {
    /// What went wrong, as a JSON object with a `message`.
    pub error: String,
    /// The execution that the step belongs to.
    pub workflow_step_execute_id: String,
}

/// What `workflows.stepFailed` answers.
#[derive(Clone, Debug, PartialEq, Eq)]
pub struct StepFailedResponse {
    /// Whether Slack carried the call out.
    pub ok: bool,
    /// Slack's code for what went wrong, where `ok` is `false`.
    pub error: Option<String>,
}

/// How a call of `workflows.stepFailed` fails.
pub type StepFailedError<E> = CallError<E>;

impl Request for StepFailedRequest {
    open spec fn fields(&self) -> Seq<Field> {
        seq![
            Field { name: "error"@, value: Some(self.error@) },
            Field {
                name: "workflow_step_execute_id"@,
                value: Some(self.workflow_step_execute_id@),
            },
        ]
    }

    proof fn lemma_names_differ(&self) {
        reveal_strlit("error");
        reveal_strlit("workflow_step_execute_id");
        assert({
            &&& "error"@.len() == 5
            &&& "workflow_step_execute_id"@.len() == 24
        });
    }

    fn params(&self) -> (params: Vec<(&'static str, String)>) {
        let error = required_slot("error", &self.error);
        let workflow_step_execute_id = required_slot(
            "workflow_step_execute_id",
            &self.workflow_step_execute_id,
        );
        let slots = vec![error, workflow_step_execute_id];
        assert(slots_of(slots@) =~= self.fields().map_values(|field: Field| slot(field)));
        collect(slots)
    }
}

impl StepFailedRequest {
    /// `error` is sent with every request, once and as it stands.
    pub proof fn lemma_error_always_sent(&self)
        ensures
            named_once(assemble(self.fields()), "error"@, self.error@),
    {
        self.lemma_names_differ();
        lemma_present_field_sends_one(self.fields(), 0);
    }

    /// `workflow_step_execute_id` is sent with every request, once and as it stands.
    pub proof fn lemma_workflow_step_execute_id_always_sent(&self)
        ensures
            named_once(
                assemble(self.fields()),
                "workflow_step_execute_id"@,
                self.workflow_step_execute_id@,
            ),
    {
        self.lemma_names_differ();
        lemma_present_field_sends_one(self.fields(), 1);
    }
}

impl Response for StepFailedResponse {
    open spec fn fits(json: Json) -> bool {
        status_fits(json)
    }

    open spec fn holds(&self, json: Json) -> bool {
        status_holds(self.ok, self.error, json)
    }

    fn decode(value: &serde_json::Value) -> (decoded: Result<Self, DecodeError>) {
        match status(value) {
            Ok((ok, error)) => Ok(StepFailedResponse { ok, error }),
            Err(e) => Err(e),
        }
    }
}

/// Indicate that an app's step in a workflow failed to execute.
///
/// Sends one GET to `workflows.stepFailed` with the parameter list of `request` as the
/// query, and decodes what comes back.
pub fn step_failed<R: SlackWebRequestSender>(
    client: &R,
    request: &StepFailedRequest,
) -> (result: Result<StepFailedResponse, StepFailedError<R::Error>>)
    ensures
        exists|reply: Result<String, R::Error>|
            client.get_yields(
                slack_url("/workflows.stepFailed"@),
                assemble(request.fields()),
                reply,
            ) && #[trigger] outcome_of(reply, result),
{
    send_get(client, "/workflows.stepFailed", request)
}

/// What `workflows.updateStep` takes.
#[derive(Clone, Debug, Default)]
pub struct UpdateStepRequest {
    /// What the step takes, as a JSON object of its own.
    pub inputs: Option<String>,
    /// What the step gives, as a JSON array of its own.
    pub outputs: Option<String>,
    /// The image shown with the step.
    pub step_image_url: Option<String>,
    /// The name shown for the step.
    pub step_name: Option<String>,
    /// The edit that the configuration belongs to.
    pub workflow_step_edit_id: String,
}

/// What `workflows.updateStep` answers.
#[derive(Clone, Debug, PartialEq, Eq)]
pub struct UpdateStepResponse {
    /// Whether Slack carried the call out.
    pub ok: bool,
    /// Slack's code for what went wrong, where `ok` is `false`.
    pub error: Option<String>,
}

/// How a call of `workflows.updateStep` fails.
pub type UpdateStepError<E> = CallError<E>;

impl Request for UpdateStepRequest {
    open spec fn fields(&self) -> Seq<Field> {
        seq![
            Field { name: "inputs"@, value: self.inputs.deep_view() },
            Field { name: "outputs"@, value: self.outputs.deep_view() },
            Field { name: "step_image_url"@, value: self.step_image_url.deep_view() },
            Field { name: "step_name"@, value: self.step_name.deep_view() },
            Field { name: "workflow_step_edit_id"@, value: Some(self.workflow_step_edit_id@) },
        ]
    }

    proof fn lemma_names_differ(&self) {
        reveal_strlit("inputs");
        reveal_strlit("outputs");
        reveal_strlit("step_image_url");
        reveal_strlit("step_name");
        reveal_strlit("workflow_step_edit_id");
        assert({
            &&& "inputs"@.len() == 6
            &&& "outputs"@.len() == 7
            &&& "step_image_url"@.len() == 14
            &&& "step_name"@.len() == 9
            &&& "workflow_step_edit_id"@.len() == 21
        });
    }

    fn params(&self) -> (params: Vec<(&'static str, String)>) {
        let inputs = text_slot("inputs", &self.inputs);
        let outputs = text_slot("outputs", &self.outputs);
        let step_image_url = text_slot("step_image_url", &self.step_image_url);
        let step_name = text_slot("step_name", &self.step_name);
        let workflow_step_edit_id = required_slot(
            "workflow_step_edit_id",
            &self.workflow_step_edit_id,
        );
        let slots = vec![inputs, outputs, step_image_url, step_name, workflow_step_edit_id];
        assert(slots_of(slots@) =~= self.fields().map_values(|field: Field| slot(field)));
        collect(slots)
    }
}

impl UpdateStepRequest {
    /// `workflow_step_edit_id` is sent with every request, once and as it stands.
    pub proof fn lemma_workflow_step_edit_id_always_sent(&self)
        ensures
            named_once(
                assemble(self.fields()),
                "workflow_step_edit_id"@,
                self.workflow_step_edit_id@,
            ),
    {
        self.lemma_names_differ();
        lemma_present_field_sends_one(self.fields(), 4);
    }
}

impl Response for UpdateStepResponse {
    open spec fn fits(json: Json) -> bool {
        status_fits(json)
    }

    open spec fn holds(&self, json: Json) -> bool {
        status_holds(self.ok, self.error, json)
    }

    fn decode(value: &serde_json::Value) -> (decoded: Result<Self, DecodeError>) {
        match status(value) {
            Ok((ok, error)) => Ok(UpdateStepResponse { ok, error }),
            Err(e) => Err(e),
        }
    }
}

/// Update the configuration for a workflow extension step.
///
/// Sends one GET to `workflows.updateStep` with the parameter list of `request` as the
/// query, and decodes what comes back.
pub fn update_step<R: SlackWebRequestSender>(
    client: &R,
    request: &UpdateStepRequest,
) -> (result: Result<UpdateStepResponse, UpdateStepError<R::Error>>)
    ensures
        exists|reply: Result<String, R::Error>|
            client.get_yields(
                slack_url("/workflows.updateStep"@),
                assemble(request.fields()),
                reply,
            ) && #[trigger] outcome_of(reply, result),
{
    send_get(client, "/workflows.updateStep", request)
}

} // verus!
