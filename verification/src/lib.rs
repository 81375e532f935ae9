//! Typed requests, responses and schema handling for the P4TC runtime control library.
mod types;

pub use types::{Entity, MsgFlags, ObjType, Phase, Policy, Transport};
mod text;
mod error;
pub use error::{Error, ErrorSpec, Result};
mod decode;
pub use decode::{
    decode_key_field, decode_key_lowered, decode_param_lowered, decode_param_value, DecodedSpec,
    DecodedValue,
};
mod schema;
pub use schema::{
    data_param_names, default_match_type, ActionSchema, ExternInstanceSchema, ExternSchema, KeyFieldSchema, ParamSchema, PipelineSchema,
    TableSchema,
};
mod entry;
pub use entry::{Action, ExternEntry, KeyField, Param, TableEntry};
mod parse;
pub use parse::{
    batch_decodable, decodable, decode_key_fields, parse_action, parse_entry, parse_ext_entry, parse_ext_obj, parse_obj, parse_param,
    RawAction, RawExternEntry, RawParam, RawTableEntry,
};
mod plan;
pub use plan::{
    check_c_str, Call, CallSpec, Command, CommandSpec, CrudOp, Failure, FailureSpec, Outcome, Plan,
    Handling, Responses, ResponsesSpec, Runner, Step, StepSpec,
};
mod table;
mod extern_;
pub use table::{DeleteBuilder, GetBuilder, InsertBuilder, TableRequest, UpdateBuilder};
mod context;
pub use context::{Context, Pipeline, Registration};
pub use extern_::{
    ExternBuilder, ExternDeleteBuilder, ExternGetBuilder, ExternInsertBuilder, ExternRequest,
    ExternUpdateBuilder,
};
mod laws;
mod calls;
mod validation;
pub use validation::law_validation;
pub use calls::{
    law_action_attached, law_entry_attributes, law_extern_instance, law_keyless_reaches_all,
    law_placeholder_params, law_filter_applied, law_request_key,
    law_subscription_target, law_table_request_target, makes_call, makes_call_before,
    table_request_sendable,
};
pub use laws::{
    builds_then_sends, law_callback_delivery, law_delete_sends_last, law_extern_sends_last, law_get_sends_last,
    law_insert_sends_last, law_subscribe_registers_last, law_update_sends_last,
};
