//! A small HTTP request tool: an editable request model, the rules that turn
//! a request into one outgoing call, the text shown for its outcome, and the
//! controller state that drives a send/response cycle.

mod controller;
mod dispatch;
mod editor;
mod header_rules;
mod http_method;
mod http_request;
mod key_value;
mod report;

pub use controller::{
    lemma_one_request_at_a_time, lemma_resolved_dispatch_ends_loading, lemma_send_is_guarded, lemma_snapshot_survives_edits,
    polled, sent, HostMan,
};
pub use dispatch::{
    authorization_key, call_planned, check_headers, checked_headers, header_check,
    lemma_query_params_sent_twice, payload_planned, plan_call, planned_headers, planned_query,
    prepare_request, DispatchError, OutgoingCall, Payload,
};
pub use editor::{
    apply_edit, apply_editor_pass, apply_edits, apply_pass, edits_view, lemma_last_rename_wins,
    EditView, EditorPass, RowEdit,
};
pub use header_rules::{
    header_name_acceptable, header_name_refusal, header_value_acceptable, header_value_refusal,
    is_token_char, is_value_char,
};
pub use http_method::HttpMethod;
pub use http_request::HttpRequest;
pub use key_value::{has_key, keys_unique, pairs_to_map, pairs_view, KeyValueMap, PairView};
pub use report::{
    debug_text_of, decimal, decimal_text, digit_char, error_message, hex_digit, json_escape,
    json_text, lemma_any_status_is_a_completed_call, outcome_report, response_text, shown_body,
    status_report, status_text,
};
