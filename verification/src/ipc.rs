//! IPC commands sent by the web front end: finding the command's name,
//! binding the arguments that a Python handler asks for, and answering
//! each invocation once.

use crate::header::{
    first_value, header_map_entries, header_map_get, header_text, header_value_to_str, is_visible_ascii,
    to_str_error_text,
};
use crate::app_handle::PyAppHandleStateError;
use crate::slot::{after_access, take_result, Access, ConsumedError, Slot};
use http::HeaderMap;
use vstd::prelude::*;

verus! {

/// The view of a command-name lookup: the name, or the rejection message.
pub open spec fn text_result_view(r: Result<&str, String>) -> Result<Seq<char>, Seq<char>> {
    match r {
        Ok(s) => Ok(s@),
        Err(e) => Err(e@),
    }
}

/// The name of the Python function that a message calls, read from its
/// `pyfunc` header, or the message with which the call is rejected.
pub open spec fn func_name_spec(entries: Map<Seq<char>, Seq<Seq<u8>>>) -> Result<Seq<char>, Seq<char>> {
    match first_value(entries, "pyfunc"@) {
        None => Err("There is no pyfunc header"@),
        Some(bytes) => match header_text(bytes) {
            Some(name) => Ok(name),
            None => Err("failed to convert header to a str"@),
        },
    }
}


/// The answer sent back to the front end for an invocation.
pub enum Answer {
    /// Resolves the call with raw bytes.
    Resolve(Vec<u8>),
    /// Rejects the call with a message.
    Reject(String),
}

/// What answering an invocation whose pending value is `pending` gives:
/// the value together with the answer, or the error that it was consumed.
pub open spec fn answer_result<T>(pending: Option<T>, answer: Answer) -> Result<(T, Answer), ConsumedError> {
    match pending {
        Some(t) => Ok((t, answer)),
        None => Err(ConsumedError),
    }
}

/// The keys that a Python handler asks to have bound.
#[derive(Debug, Clone, Copy, PartialEq, Eq, Structural)]
pub struct BindRequest {
    /// The raw request body.
    pub body: bool,
    /// The application handle.
    pub app_handle: bool,
    /// The web-view window that made the call.
    pub webview_window: bool,
}

/// The body of an IPC message: JSON, or raw bytes.
pub enum InvokePayload {
    Json,
    Raw(Vec<u8>),
}

/// The arguments bound for a Python handler; each is present exactly when
/// it was asked for.
pub struct BoundArguments<H, W> {
    pub body: Option<Vec<u8>>,
    pub app_handle: Option<H>,
    pub webview_window: Option<W>,
}

/// How binding the arguments of an invocation ends.
pub enum BindOutcome<H, W, E> {
    /// Every requested argument is available.
    Bound(BoundArguments<H, W>),
    /// The body was requested but the message carries JSON: the call is
    /// rejected with [`json_body_rejection`]'s message.
    JsonBodyRejected,
    /// The web-view window was requested but could not be read: the call
    /// fails with this error.
    WebviewWindowError(E),
    /// The application handle was requested but is missing: the error is
    /// raised to Python and the call gets no answer.
    AppHandleError(PyAppHandleStateError),
}

/// The outcome of binding `request` against a message with `payload`, given
/// the looked-up application handle and web-view window. The checks run in
/// this order: body, application handle, web-view window.
pub open spec fn bind_spec<H, W, E>(
    request: BindRequest,
    payload: InvokePayload,
    app_handle: Result<H, PyAppHandleStateError>,
    webview_window: Result<W, E>,
) -> BindOutcome<H, W, E> {
    if request.body && payload is Json {
        BindOutcome::JsonBodyRejected
    } else if request.app_handle && app_handle is Err {
        BindOutcome::AppHandleError(app_handle->Err_0)
    } else if request.webview_window && webview_window is Err {
        BindOutcome::WebviewWindowError(webview_window->Err_0)
    } else {
        BindOutcome::Bound(
            BoundArguments {
                body: if request.body {
                    Some(payload->Raw_0)
                } else {
                    None
                },
                app_handle: if request.app_handle {
                    Some(app_handle->Ok_0)
                } else {
                    None
                },
                webview_window: if request.webview_window {
                    Some(webview_window->Ok_0)
                } else {
                    None
                },
            },
        )
    }
}

/// Law: when binding succeeds, the arguments hold exactly the requested
/// keys, the body being the raw bytes of the message.
pub proof fn lemma_bound_keys_are_requested<H, W, E>(
    request: BindRequest,
    payload: InvokePayload,
    app_handle: Result<H, PyAppHandleStateError>,
    webview_window: Result<W, E>,
)
    ensures
        bind_spec(request, payload, app_handle, webview_window) matches BindOutcome::Bound(args)
            ==> {
            &&& (args.body is Some <==> request.body)
            &&& (args.app_handle is Some <==> request.app_handle)
            &&& (args.webview_window is Some <==> request.webview_window)
            &&& (request.body ==> payload == InvokePayload::Raw(args.body->Some_0))
            &&& (request.app_handle ==> app_handle == Ok::<H, PyAppHandleStateError>(
                args.app_handle->Some_0,
            ))
            &&& (request.webview_window ==> webview_window == Ok::<W, E>(
                args.webview_window->Some_0,
            ))
        },
{
}

/// Law: a request for the body of a JSON message is rejected, whatever the
/// other lookups give.
pub proof fn lemma_json_body_always_rejected<H, W, E>(
    request: BindRequest,
    app_handle: Result<H, PyAppHandleStateError>,
    webview_window: Result<W, E>,
)
    requires
        request.body,
    ensures
        bind_spec(request, InvokePayload::Json, app_handle, webview_window)
            == BindOutcome::<H, W, E>::JsonBodyRejected,
{
}

/// Law: what was not requested does not matter: the payload, the handle
/// lookup and the window lookup are read only when asked for.
pub proof fn lemma_unrequested_inputs_ignored<H, W, E>(
    request: BindRequest,
    payload1: InvokePayload,
    payload2: InvokePayload,
    app_handle1: Result<H, PyAppHandleStateError>,
    app_handle2: Result<H, PyAppHandleStateError>,
    webview_window1: Result<W, E>,
    webview_window2: Result<W, E>,
)
    requires
        request.body ==> payload1 == payload2,
        request.app_handle ==> app_handle1 == app_handle2,
        request.webview_window ==> webview_window1 == webview_window2,
    ensures
        bind_spec(request, payload1, app_handle1, webview_window1) == bind_spec(
            request,
            payload2,
            app_handle2,
            webview_window2,
        ),
{
}

/// Law: the name read from the headers is the first `pyfunc` value, byte
/// for byte, whenever every byte of it is a visible ASCII character or a
/// tab; the name is never shortened or altered. A missing header and an
/// unreadable value are rejected with their fixed messages.
pub proof fn lemma_func_name_is_header_value(entries: Map<Seq<char>, Seq<Seq<u8>>>)
    ensures
        !(entries.contains_key("pyfunc"@) && entries["pyfunc"@].len() > 0) ==> func_name_spec(
            entries,
        ) == Err::<Seq<char>, Seq<char>>("There is no pyfunc header"@),
        entries.contains_key("pyfunc"@) && entries["pyfunc"@].len() > 0 ==> {
            let bytes = entries["pyfunc"@][0];
            &&& (forall|i: int|
                0 <= i < bytes.len() ==> (32 <= #[trigger] bytes[i] && bytes[i] < 127) || bytes[i]
                    == 9) ==> {
                &&& func_name_spec(entries) is Ok
                &&& func_name_spec(entries)->Ok_0.len() == bytes.len()
                &&& forall|i: int|
                    0 <= i < bytes.len() ==> #[trigger] func_name_spec(entries)->Ok_0[i] == (
                    bytes[i] as char)
            }
            &&& (exists|i: int|
                0 <= i < bytes.len() && !((32 <= #[trigger] bytes[i] && bytes[i] < 127) || bytes[i]
                    == 9)) ==> func_name_spec(entries) == Err::<Seq<char>, Seq<char>>(
                "failed to convert header to a str"@,
            )
        },
{
    if entries.contains_key("pyfunc"@) && entries["pyfunc"@].len() > 0 {
        let bytes = entries["pyfunc"@][0];
        if exists|i: int|
            0 <= i < bytes.len() && !((32 <= #[trigger] bytes[i] && bytes[i] < 127) || bytes[i]
                == 9) {
            let i = choose|i: int|
                0 <= i < bytes.len() && !((32 <= #[trigger] bytes[i] && bytes[i] < 127) || bytes[i]
                    == 9);
            assert(!is_visible_ascii(bytes[i]));
        }
    }
}

/// Law: answering an invocation that still waits succeeds with that
/// invocation and exactly the given answer, whatever the bytes or message;
/// only an invocation already answered reports `ConsumedError`.
pub proof fn lemma_answer_pending_succeeds<T>(t: T, bytes: Vec<u8>, message: String)
    ensures
        answer_result(Some(t), Answer::Resolve(bytes)) == Ok::<(T, Answer), ConsumedError>(
            (t, Answer::Resolve(bytes)),
        ),
        answer_result(Some(t), Answer::Reject(message)) == Ok::<(T, Answer), ConsumedError>(
            (t, Answer::Reject(message)),
        ),
        answer_result(None::<T>, Answer::Resolve(bytes)) == Err::<(T, Answer), ConsumedError>(
            ConsumedError,
        ),
        answer_result(None::<T>, Answer::Reject(message)) == Err::<(T, Answer), ConsumedError>(
            ConsumedError,
        ),
        take_result(Some(t)) == Ok::<T, ConsumedError>(t),
        take_result(None::<T>) == Err::<T, ConsumedError>(ConsumedError),
{
}

/// Law: how binding ends, case by case. The call is rejected for its JSON
/// body exactly when the body was requested and the message carries JSON;
/// otherwise a requested but missing application handle is raised; otherwise
/// a requested web-view window that failed fails the call with its error.
pub proof fn lemma_bind_outcome_cases<H, W, E>(
    request: BindRequest,
    payload: InvokePayload,
    app_handle: Result<H, PyAppHandleStateError>,
    webview_window: Result<W, E>,
)
    ensures
        (bind_spec(request, payload, app_handle, webview_window) is JsonBodyRejected) <==> (
        request.body && payload is Json),
        !(request.body && payload is Json) && request.app_handle && app_handle is Err
            ==> bind_spec(request, payload, app_handle, webview_window)
            == BindOutcome::<H, W, E>::AppHandleError(app_handle->Err_0),
        bind_spec(request, payload, app_handle, webview_window) matches BindOutcome::AppHandleError(
            e,
        ) ==> request.app_handle && app_handle == Err::<H, PyAppHandleStateError>(e),
        !(request.body && payload is Json) && (!request.app_handle || app_handle is Ok)
            && request.webview_window && webview_window is Err ==> bind_spec(
            request,
            payload,
            app_handle,
            webview_window,
        ) == BindOutcome::<H, W, E>::WebviewWindowError(webview_window->Err_0),
        bind_spec(request, payload, app_handle, webview_window) matches BindOutcome::WebviewWindowError(
            e,
        ) ==> request.webview_window && webview_window == Err::<W, E>(e),
{
}

/// Law: binding succeeds whenever every requested argument is available.
pub proof fn lemma_binds_when_available<H, W, E>(
    request: BindRequest,
    payload: InvokePayload,
    app_handle: Result<H, PyAppHandleStateError>,
    webview_window: Result<W, E>,
)
    requires
        request.body ==> payload is Raw,
        request.app_handle ==> app_handle is Ok,
        request.webview_window ==> webview_window is Ok,
    ensures
        bind_spec(request, payload, app_handle, webview_window) is Bound,
{
}

/// The text of the rejection sent when a handler asks for the body of a JSON
/// message.
pub open spec fn json_body_rejection_text() -> Seq<char> {
    "Please use `ArrayBuffer` or `Uint8Array` raw request, it's more efficient"@
}

/// The message with which a call is rejected when the body was asked for
/// but the message carries JSON.
pub fn json_body_rejection() -> (r: String)
    ensures
        r@ == json_body_rejection_text(),
{
    "Please use `ArrayBuffer` or `Uint8Array` raw request, it's more efficient".to_owned()
}

/// Decides what binding `request` gives for a message with `payload`;
/// `app_handle` and `webview_window` are the results of looking those up,
/// and are read only when requested.
pub fn bind_arguments<H, W, E>(
    request: BindRequest,
    payload: InvokePayload,
    app_handle: Result<H, PyAppHandleStateError>,
    webview_window: Result<W, E>,
) -> (r: BindOutcome<H, W, E>)
    ensures
        r == bind_spec(request, payload, app_handle, webview_window),
{
    let body = if request.body {
        match payload {
            InvokePayload::Json => return BindOutcome::JsonBodyRejected,
            InvokePayload::Raw(bytes) => Some(bytes),
        }
    } else {
        None
    };
    let app_handle = if request.app_handle {
        match app_handle {
            Ok(h) => Some(h),
            Err(e) => return BindOutcome::AppHandleError(e),
        }
    } else {
        None
    };
    let webview_window = if request.webview_window {
        match webview_window {
            Ok(w) => Some(w),
            Err(e) => return BindOutcome::WebviewWindowError(e),
        }
    } else {
        None
    };
    BindOutcome::Bound(BoundArguments { body, app_handle, webview_window })
}

/// An IPC invocation that the front end made, waiting to be answered.
pub struct Invoke<T> {
    inner: Slot<T>,
    command: String,
}

impl<T> Invoke<T> {
    /// Reads the name of the called Python function from the `pyfunc`
    /// header of the message's headers.
    pub fn get_func_name_from_message(headers: &HeaderMap) -> (r: Result<&str, String>)
        ensures
            text_result_view(r) == func_name_spec(header_map_entries(*headers)),
    {
        proof {
            reveal_strlit("pyfunc");
        }
        let value = match header_map_get(headers, "pyfunc") {
            Some(v) => v,
            None => return Err("There is no pyfunc header".to_owned()),
        };
        match header_value_to_str(value) {
            Ok(name) => Ok(name),
            Err(e) => Err(to_str_error_text(&e)),
        }
    }

    /// Accepts an invocation whose message names the Python function
    /// `func_name`; when the name could not be read, the invocation is
    /// handed back with the message to reject it with.
    pub fn new(invoke: T, func_name: Result<String, String>) -> (r: Result<Self, (T, String)>)
        ensures
            (match func_name {
                Ok(name) => r matches Ok(inv) && inv.pending() == Some(invoke) && inv.command_view()
                    == name@,
                Err(reason) => r == Err::<Self, (T, String)>((invoke, reason)),
            }),
    {
        match func_name {
            Ok(name) => Ok(Invoke { inner: Slot::new(invoke), command: name }),
            Err(reason) => Err((invoke, reason)),
        }
    }

    /// The invocation that still waits for its answer, if any.
    pub closed spec fn pending(&self) -> Option<T> {
        self.inner@
    }

    /// The name of the called Python function.
    pub closed spec fn command_view(&self) -> Seq<char> {
        self.command@
    }

    /// The name of the called Python function.
    pub fn command(&self) -> (r: &str)
        ensures
            r@ == self.command_view(),
    {
        self.command.as_str()
    }

    /// Takes the invocation out to bind its arguments; the invocation is
    /// consumed whatever the binding gives.
    pub fn bind_to(&mut self) -> (r: Result<T, ConsumedError>)
        ensures
            r == take_result(old(self).pending()),
            final(self).pending() is None,
            (final(self).pending() is Some) == after_access(old(self).pending() is Some, Access::Take),
            final(self).command_view() == old(self).command_view(),
    {
        self.inner.take()
    }

    /// Takes the invocation out to resolve it with `value`.
    pub fn resolve(&mut self, value: Vec<u8>) -> (r: Result<(T, Answer), ConsumedError>)
        ensures
            r == answer_result(old(self).pending(), Answer::Resolve(value)),
            final(self).pending() is None,
            (final(self).pending() is Some) == after_access(old(self).pending() is Some, Access::Take),
            final(self).command_view() == old(self).command_view(),
    {
        match self.inner.take() {
            Ok(t) => Ok((t, Answer::Resolve(value))),
            Err(e) => Err(e),
        }
    }

    /// Takes the invocation out to reject it with `value`.
    pub fn reject(&mut self, value: String) -> (r: Result<(T, Answer), ConsumedError>)
        ensures
            r == answer_result(old(self).pending(), Answer::Reject(value)),
            final(self).pending() is None,
            (final(self).pending() is Some) == after_access(old(self).pending() is Some, Access::Take),
            final(self).command_view() == old(self).command_view(),
    {
        match self.inner.take() {
            Ok(t) => Ok((t, Answer::Reject(value))),
            Err(e) => Err(e),
        }
    }
}

/// The resolver of an invocation whose arguments were bound; it answers the
/// call once.
pub struct InvokeResolver<R, A> {
    inner: Slot<R>,
    arguments: A,
}

impl<R, A> InvokeResolver<R, A> {
    /// A resolver that answers through `resolver`, with the bound `arguments`.
    pub fn new(resolver: R, arguments: A) -> (r: Self)
        ensures
            r.pending() == Some(resolver),
            r.arguments_view() == arguments,
    {
        InvokeResolver { inner: Slot::new(resolver), arguments }
    }

    /// The resolver that still waits to answer, if any.
    pub closed spec fn pending(&self) -> Option<R> {
        self.inner@
    }

    /// The bound arguments.
    pub closed spec fn arguments_view(&self) -> A {
        self.arguments
    }

    /// The bound arguments.
    pub fn arguments(&self) -> (r: &A)
        ensures
            *r == self.arguments_view(),
    {
        &self.arguments
    }

    /// Takes the resolver out to resolve the call with `value`.
    pub fn resolve(&mut self, value: Vec<u8>) -> (r: Result<(R, Answer), ConsumedError>)
        ensures
            r == answer_result(old(self).pending(), Answer::Resolve(value)),
            final(self).pending() is None,
            (final(self).pending() is Some) == after_access(old(self).pending() is Some, Access::Take),
            final(self).arguments_view() == old(self).arguments_view(),
    {
        match self.inner.take() {
            Ok(t) => Ok((t, Answer::Resolve(value))),
            Err(e) => Err(e),
        }
    }

    /// Takes the resolver out to reject the call with `value`.
    pub fn reject(&mut self, value: String) -> (r: Result<(R, Answer), ConsumedError>)
        ensures
            r == answer_result(old(self).pending(), Answer::Reject(value)),
            final(self).pending() is None,
            (final(self).pending() is Some) == after_access(old(self).pending() is Some, Access::Take),
            final(self).arguments_view() == old(self).arguments_view(),
    {
        match self.inner.take() {
            Ok(t) => Ok((t, Answer::Reject(value))),
            Err(e) => Err(e),
        }
    }
}

} // verus!
