//! Trusted boundary to the embedded ECMAScript runtime.
//!
//! Every call into the runtime crate goes through one of the items here.
//! What a script evaluation returns depends on the whole state of the
//! runtime, which stays opaque; the contracts therefore state only what
//! holds of every outcome, and the verified host logic treats each result
//! as arbitrary.
use vstd::prelude::*;

verus! {

#[verifier::external_type_specification]
#[verifier::external_body]
pub struct ExContext(boa_engine::Context);

#[verifier::external_type_specification]
#[verifier::external_body]
pub struct ExJsValue(boa_engine::JsValue);

#[verifier::external_type_specification]
#[verifier::external_body]
pub struct ExJsFunction(boa_engine::object::builtins::JsFunction);

#[verifier::external_type_specification]
#[verifier::external_body]
pub struct ExNativeFunction(boa_engine::NativeFunction);

/// Relies on `boa_engine::Context::default`: a fresh realm with the
/// ECMAScript intrinsics and nothing of this host registered yet.
#[verifier::external_body]
pub fn new_context() -> boa_engine::Context {
    boa_engine::Context::default()
}

/// Relies on `boa_engine::Context::eval`: parses and runs the text in the
/// context, returning the completion value or the thrown error.
#[verifier::external_body]
pub fn eval_js(ctx: &mut boa_engine::Context, src: &str) -> Result<boa_engine::JsValue, String> {
    ctx.eval(boa_engine::Source::from_bytes(src)).map_err(|err| format!("{err:?}"))
}

/// Relies on `boa_runtime::Console::register_with_logger`: binds the
/// `console` object, logging through the runtime's default logger.
#[verifier::external_body]
pub fn register_console(ctx: &mut boa_engine::Context) -> Result<(), String> {
    boa_runtime::Console::register_with_logger(boa_runtime::DefaultLogger, ctx).map_err(
        |err| format!("{err:?}"),
    )
}

/// Relies on `boa_engine::Context::register_global_property`: binds the
/// number under the name as a read-only global.
#[verifier::external_body]
pub fn register_global_u32(ctx: &mut boa_engine::Context, name: &str, value: u32) -> Result<
    (),
    String,
> {
    ctx.register_global_property(
        boa_engine::JsString::from(name),
        value,
        boa_engine::property::Attribute::READONLY,
    ).map_err(|err| format!("{err:?}"))
}

/// Relies on `boa_engine::Context::register_global_callable`: binds the
/// native function under the name as a global callable.
#[verifier::external_body]
pub fn register_global_callable(
    ctx: &mut boa_engine::Context,
    name: &str,
    length: usize,
    body: boa_engine::NativeFunction,
) -> Result<(), String> {
    ctx.register_global_callable(boa_engine::JsString::from(name), length, body).map_err(
        |err| format!("{err:?}"),
    )
}

/// Relies on `boa_engine::Context::global_object` and `JsObject::get`: reads
/// the named global property.
#[verifier::external_body]
pub fn get_global(ctx: &mut boa_engine::Context, name: &str) -> Result<
    boa_engine::JsValue,
    String,
> {
    ctx.global_object().get(boa_engine::JsString::from(name), ctx).map_err(
        |err| format!("{err:?}"),
    )
}

/// Relies on `JsFunction::try_from_js`: succeeds exactly when the value is a
/// function object.
#[verifier::external_body]
pub fn to_function(ctx: &mut boa_engine::Context, v: &boa_engine::JsValue) -> Result<
    boa_engine::object::builtins::JsFunction,
    String,
> {
    <boa_engine::object::builtins::JsFunction as boa_engine::value::TryFromJs>::try_from_js(
        v,
        ctx,
    ).map_err(|err| format!("{err:?}"))
}

/// Relies on `JsObject::call`: invokes the protocol's marshalling shim with
/// the event's projection — its type name, key code, and, when present, the
/// modifier mask — and the reload mark, returning the script's value or the
/// thrown error.
#[verifier::external_body]
pub fn call_dispatch(
    ctx: &mut boa_engine::Context,
    f: &boa_engine::object::builtins::JsFunction,
    event_type: &str,
    keycode: u16,
    flags: Option<u64>,
    needs_config_reload: bool,
) -> Result<boa_engine::JsValue, String> {
    let flags_value = match flags {
        Some(mask) => boa_engine::JsValue::from(mask),
        None => boa_engine::JsValue::undefined(),
    };
    let args = [
        boa_engine::JsValue::from(boa_engine::JsString::from(event_type)),
        boa_engine::JsValue::from(keycode),
        flags_value,
        boa_engine::JsValue::from(needs_config_reload),
    ];
    f.call(&boa_engine::JsValue::undefined(), &args, ctx).map_err(|err| format!("{err:?}"))
}

/// Relies on `JsObject::call`: invokes the function without arguments,
/// returning the script's value or the thrown error.
#[verifier::external_body]
pub fn call_no_args(
    ctx: &mut boa_engine::Context,
    f: &boa_engine::object::builtins::JsFunction,
) -> Result<boa_engine::JsValue, String> {
    f.call(&boa_engine::JsValue::undefined(), &[], ctx).map_err(|err| format!("{err:?}"))
}

/// Relies on `JsValue::as_boolean`: the boolean the value holds, when it is
/// one.
#[verifier::external_body]
pub fn value_as_boolean(v: &boa_engine::JsValue) -> Option<bool> {
    v.as_boolean()
}

/// Relies on `JsValue::to_string` and `JsString::to_std_string_escaped`: the
/// value converted to text by the ECMAScript rules.
#[verifier::external_body]
pub fn value_to_text(ctx: &mut boa_engine::Context, v: &boa_engine::JsValue) -> Result<
    String,
    String,
> {
    match v.to_string(ctx) {
        Ok(s) => Ok(s.to_std_string_escaped()),
        Err(err) => Err(format!("{err:?}")),
    }
}

/// Relies on `JsValue::to_u32`: the value converted to an unsigned number by
/// the ECMAScript rules.
#[verifier::external_body]
pub fn value_to_u32(ctx: &mut boa_engine::Context, v: &boa_engine::JsValue) -> Result<
    u32,
    String,
> {
    v.to_u32(ctx).map_err(|err| format!("{err:?}"))
}

} // verus!
