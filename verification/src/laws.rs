//! What holds of the gateway as a whole: the order of the authentication, the
//! shape of the errors, and the course of a call over many events.

use crate::auth::{resolution, AnswerView, AuthDataView, AuthStep};
use crate::call::{
    authenticated_call, finish, finished, progress, run, step, ActionView, CallView, EventView,
    SpecialStatusView, StageView, STATUS_BAD_REQUEST, STATUS_NO_CONTENT, STATUS_OK,
    UNEXPECTED_EVENT,
};
use crate::error::ApiServerErrorView;
use crate::http_server::{
    file_not_found, upload_form, HttpApiServerView, SourceFileView, UploadView, APIKEY_MISSING,
    APIKEY_PRESENT,
};
use crate::project_id::ProjectId;
use crate::request::{authorized, Method, RequestView};
use crate::route::{project_path, APIKEY_ROUTE_V1, PROJECT_ROUTE_V1};
use vstd::prelude::*;

verus! {

/// The URL of a request is scheme, `://`, host, `:`, port and path, and the
/// transport-security flag decides the scheme and nothing else.
pub proof fn law_url_shape<U>(server: HttpApiServerView<U>, path: Seq<char>, method: Method)
    ensures
        server.request(path, method).url == (if server.tls {
            "https"@
        } else {
            "http"@
        }) + "://"@ + server.host + ":"@ + server.port + path,
        server.request(path, method).method == method,
        server.request(path, method).authorization is None,
{
}

/// The order of the authentication. A cached session is the result, and
/// neither the refresh nor the login is asked for. Without one the refresh
/// is asked for next, and its session is the result without a login. Only
/// when both have failed is the login asked for, and its answer is the
/// result, a failure too.
pub proof fn law_resolution_order(answers: spec_fn(AuthStep) -> AnswerView)
    ensures
        answers(AuthStep::Session) is Ok ==> resolution(answers, AuthStep::Session) == (
            seq![AuthStep::Session],
            answers(AuthStep::Session),
        ),
        answers(AuthStep::Session) is Err && answers(AuthStep::Refresh) is Ok ==> resolution(
            answers,
            AuthStep::Session,
        ) == (seq![AuthStep::Session, AuthStep::Refresh], answers(AuthStep::Refresh)),
        answers(AuthStep::Session) is Err && answers(AuthStep::Refresh) is Err ==> resolution(
            answers,
            AuthStep::Session,
        ) == (
            seq![AuthStep::Session, AuthStep::Refresh, AuthStep::Login],
            answers(AuthStep::Login),
        ),
{
    reveal_with_fuel(resolution, 4);
    let refresh = resolution(answers, AuthStep::Refresh);
    if answers(AuthStep::Refresh) is Err {
        assert(refresh.0 =~= seq![AuthStep::Refresh, AuthStep::Login]);
    }
    let session = resolution(answers, AuthStep::Session);
    if answers(AuthStep::Session) is Err {
        if answers(AuthStep::Refresh) is Err {
            assert(session.0 =~= seq![AuthStep::Session, AuthStep::Refresh, AuthStep::Login]);
        } else {
            assert(session.0 =~= seq![AuthStep::Session, AuthStep::Refresh]);
        }
    }
}

/// The same order inside a call. A session sends the request at once, with
/// that session's token. A failure of the cached session asks for the
/// refresh, a failure of the refresh for the login, and a failure of the login
/// ends the call with the capability's error, unchanged.
pub proof fn law_call_authenticates_in_order<T>(
    call: CallView<T>,
    request: RequestView,
    asked: AuthStep,
    answer: AnswerView,
)
    requires
        call.stage == (StageView::Authenticating { step: asked, request }),
    ensures
        answer matches Ok(session) ==> step(call, EventView::Session(answer)) == (
            CallView { stage: StageView::Sending, ..call },
            ActionView::<T>::Send(authorized(request, session)),
        ),
        answer is Err && asked == AuthStep::Session ==> step(call, EventView::Session(answer)) == (
            CallView {
                stage: StageView::Authenticating { step: AuthStep::Refresh, request },
                ..call
            },
            ActionView::<T>::Refresh,
        ),
        answer is Err && asked == AuthStep::Refresh ==> step(call, EventView::Session(answer)) == (
            CallView { stage: StageView::Authenticating { step: AuthStep::Login, request }, ..call },
            ActionView::<T>::Login,
        ),
        answer matches Err(error) ==> (asked == AuthStep::Login ==> step(
            call,
            EventView::Session(answer),
        ) == finish::<T>(Err(ApiServerErrorView::AuthError(error)))),
{
}

/// An upload whose path names nothing, or a directory, ends before anything
/// is asked of the capability or the transport: the first action returns a
/// request error.
pub proof fn law_upload_needs_a_file<U>(
    server: HttpApiServerView<U>,
    path: Seq<char>,
    file: SourceFileView,
    file_name: Option<Seq<char>>,
    upload: UploadView,
)
    requires
        !file.exists || file.is_dir,
    ensures
        server.create(path, file, file_name, upload) == finish::<ProjectId>(
            Err(ApiServerErrorView::RequestError(file_not_found(path))),
        ),
{
}

/// Success is status 200 and nothing else. A call that has sent its request
/// goes on to its payload, or returns a value, exactly when the status of the
/// response is 200.
pub proof fn law_success_is_status_200<T>(call: CallView<T>, status: u16)
    requires
        call.stage is Sending,
    ensures
        (status == STATUS_OK) == (step(call, EventView::Status(status)).1 is ReadPayload || (step(
            call,
            EventView::Status(status),
        ).1 matches ActionView::Return(Ok(_)))),
{
}

/// A failure of the transport, or of the decoding of a body, ends a call
/// that has not returned yet with a request error that carries its text.
pub proof fn law_failure_is_request_error<T>(call: CallView<T>, text: Seq<char>)
    requires
        !(call.stage is Finished),
    ensures
        step(call, EventView::Failure(text)) == finish::<T>(
            Err(ApiServerErrorView::RequestError(text)),
        ),
{
}

/// The body of a failed response is the message of the error. Whatever the
/// operation, a status that is neither success nor the one to which the
/// operation gives a meaning of its own makes the call read the body as text,
/// and the call then fails with an API error whose message is that text.
pub proof fn law_error_body_is_message<T>(call: CallView<T>, status: u16, text: Seq<char>)
    requires
        call.stage is Sending,
        status != STATUS_OK,
        call.special matches Some(special) ==> special.status != status,
    ensures
        step(call, EventView::Status(status)).1 == ActionView::<T>::ReadText,
        step(step(call, EventView::Status(status)).0, EventView::Text(text)) == finish::<T>(
            Err(ApiServerErrorView::ApiError(text)),
        ),
        ApiServerErrorView::ApiError(text).message() == text,
{
}

/// The status to which an operation gives a meaning of its own ends the call
/// with the fixed message, and the body is not read.
pub proof fn law_special_status_is_fixed_message<T>(call: CallView<T>, status: u16)
    requires
        call.stage is Sending,
        status != STATUS_OK,
        call.special matches Some(special) && special.status == status,
    ensures
        step(call, EventView::Status(status)) == finish::<T>(
            Err(ApiServerErrorView::ApiError(call.special->0.message)),
        ),
{
}

/// Every event takes a call further, until it has returned. A call has
/// returned exactly when its action is a `Return`, and a call that has
/// returned refuses every event. Only a call that waits for a session sends.
pub proof fn law_every_event_advances<T>(call: CallView<T>, event: EventView<T>)
    ensures
        !(call.stage is Finished) ==> progress(step(call, event).0.stage) > progress(call.stage),
        call.stage is Finished ==> step(call, event) == finish::<T>(
            Err(ApiServerErrorView::RequestError(UNEXPECTED_EVENT@)),
        ),
        step(call, event).0.stage is Finished <==> step(call, event).1 is Return,
        step(call, event).1 is Send ==> call.stage is Authenticating && step(
            call,
            event,
        ).0.stage is Sending,
{
}

/// A run asks for one action per event, never falls back, and sends only
/// while it still waits for a session.
proof fn lemma_run_advances<T>(call: CallView<T>, events: Seq<EventView<T>>)
    ensures
        run(call, events).1.len() == events.len(),
        progress(run(call, events).0.stage) >= progress(call.stage),
        progress(run(call, events).0.stage) >= progress(call.stage) + events.len() || run(
            call,
            events,
        ).0.stage is Finished,
        forall|i: int|
            0 <= i < events.len() && run(call, events).1[i] is Send ==> progress(call.stage) + i
                < 3,
    decreases events.len(),
{
    if events.len() > 0 {
        let (next, action) = step(call, events[0]);
        law_every_event_advances(call, events[0]);
        lemma_run_advances(next, events.drop_first());
        let rest = run(next, events.drop_first()).1;
        let actions = run(call, events).1;
        assert(actions =~= seq![action] + rest);
        assert forall|i: int| 0 <= i < events.len() && actions[i] is Send implies progress(
            call.stage,
        ) + i < 3 by {
            if i > 0 {
                assert(actions[i] == rest[i - 1]);
            }
        }
    }
}

/// The course of a call over two events.
proof fn lemma_run_two<T>(call: CallView<T>, first: EventView<T>, second: EventView<T>)
    ensures
        run(call, seq![first, second]) == ({
            let (call, one) = step(call, first);
            let (call, two) = step(call, second);
            (call, seq![one, two])
        }),
{
    reveal_with_fuel(run, 3);
    let events = seq![first, second];
    assert(events.drop_first() =~= seq![second]);
    assert(events.drop_first().drop_first() =~= Seq::<EventView<T>>::empty());
    let (next, one) = step(call, first);
    let (last, two) = step(next, second);
    assert(run(last, Seq::<EventView<T>>::empty()).1 =~= Seq::<ActionView<T>>::empty());
    assert(run(next, seq![second]).1 =~= seq![two]);
    assert(run(call, events).1 =~= seq![one, two]);
}

/// The course of a call over three events.
proof fn lemma_run_three<T>(
    call: CallView<T>,
    first: EventView<T>,
    second: EventView<T>,
    third: EventView<T>,
)
    ensures
        run(call, seq![first, second, third]) == ({
            let (call, one) = step(call, first);
            let (call, two) = step(call, second);
            let (call, three) = step(call, third);
            (call, seq![one, two, three])
        }),
{
    reveal_with_fuel(run, 2);
    let events = seq![first, second, third];
    assert(events.drop_first() =~= seq![second, third]);
    let (next, one) = step(call, first);
    lemma_run_two(next, second, third);
    let rest = run(next, seq![second, third]);
    assert(run(call, events).1 =~= seq![one] + rest.1);
    assert(seq![one] + rest.1 =~= seq![one, rest.1[0], rest.1[1]]);
}

/// No call sends twice: whatever the events, at most one of the actions of a
/// run is a `Send`, and none is once the request has been sent. A failed
/// response is never followed by a second attempt.
pub proof fn law_no_retry<T>(call: CallView<T>, events: Seq<EventView<T>>)
    ensures
        forall|i: int, j: int|
            0 <= i < j < events.len() ==> !(run(call, events).1[i] is Send && run(
                call,
                events,
            ).1[j] is Send),
        !(call.stage is Authenticating) ==> forall|i: int|
            0 <= i < events.len() ==> !(run(call, events).1[i] is Send),
    decreases events.len(),
{
    lemma_run_advances(call, events);
    if events.len() > 0 {
        let (next, action) = step(call, events[0]);
        law_every_event_advances(call, events[0]);
        law_no_retry(next, events.drop_first());
        let rest = run(next, events.drop_first()).1;
        let actions = run(call, events).1;
        assert(actions =~= seq![action] + rest);
        assert forall|i: int, j: int| 0 <= i < j < events.len() implies !(actions[i] is Send
            && actions[j] is Send) by {
            assert(actions[j] == rest[j - 1]);
            if i > 0 {
                assert(actions[i] == rest[i - 1]);
            }
        }
    }
}

/// Every call ends: five events take any call to its end, whatever they are.
pub proof fn law_call_ends<T>(call: CallView<T>, events: Seq<EventView<T>>)
    requires
        events.len() >= 5,
    ensures
        run(call, events).0.stage is Finished,
{
    lemma_run_advances(call, events);
}

/// The course of a call that succeeds. With a session at hand, the call sends
/// its request with that session's token, once; on status 200 it asks for the
/// payload, and what the body decodes to is what it returns.
pub proof fn law_success_returns_the_payload<T>(
    request: RequestView,
    special: Option<SpecialStatusView>,
    session: AuthDataView,
    payload: T,
)
    ensures
        run(
            authenticated_call::<T>(request, None, special).0,
            seq![
                EventView::Session(Ok(session)),
                EventView::Status(STATUS_OK),
                EventView::Payload(payload),
            ],
        ) == (
            finished::<T>(),
            seq![
                ActionView::Send(authorized(request, session)),
                ActionView::ReadPayload,
                ActionView::Return(Ok(payload)),
            ],
        ),
{
    lemma_run_three(
        authenticated_call::<T>(request, None, special).0,
        EventView::Session(Ok(session)),
        EventView::Status(STATUS_OK),
        EventView::Payload(payload),
    );
}

/// The creation of a project returns the identifier that the body of the
/// response decodes to, and no other.
pub proof fn law_creation_returns_the_identifier<U>(
    server: HttpApiServerView<U>,
    path: Seq<char>,
    file: SourceFileView,
    file_name: Seq<char>,
    upload: UploadView,
    session: AuthDataView,
    id: ProjectId,
)
    requires
        file.exists,
        !file.is_dir,
        file.contents is Ok,
    ensures
        server.create(path, file, Some(file_name), upload).1 == ActionView::<
            ProjectId,
        >::CheckSession,
        run(
            server.create(path, file, Some(file_name), upload).0,
            seq![
                EventView::Session(Ok(session)),
                EventView::Status(STATUS_OK),
                EventView::Payload(id),
            ],
        ).1.last() == ActionView::Return(Ok::<ProjectId, ApiServerErrorView>(id)),
{
    let request = RequestView {
        form: Some(upload_form(upload, file_name, file.contents->Ok_0)),
        ..server.request(PROJECT_ROUTE_V1@, Method::Post)
    };
    assert(server.create(path, file, Some(file_name), upload) == authenticated_call::<ProjectId>(
        request,
        None,
        None,
    ));
    law_success_returns_the_payload::<ProjectId>(request, None, session, id);
}

/// Without an API key, its fetch fails with the fixed message: on status 204
/// the call returns at once, and the body is not read.
pub proof fn law_apikey_list_without_a_key<T, U>(
    server: HttpApiServerView<U>,
    session: AuthDataView,
)
    ensures
        run(
            server.apikey_list::<T>().0,
            seq![EventView::Session(Ok(session)), EventView::Status(STATUS_NO_CONTENT)],
        ) == (
            finished::<T>(),
            seq![
                ActionView::<T>::Send(
                    authorized(server.request(APIKEY_ROUTE_V1@, Method::Get), session),
                ),
                ActionView::Return(Err(ApiServerErrorView::ApiError(APIKEY_MISSING@))),
            ],
        ),
{
    lemma_run_two(
        server.apikey_list::<T>().0,
        EventView::Session(Ok(session)),
        EventView::Status(STATUS_NO_CONTENT),
    );
}

/// With an API key in place, its creation fails with the fixed message: on
/// status 400 the call returns at once, and the body is not read.
pub proof fn law_apikey_create_with_a_key<T, U>(
    server: HttpApiServerView<U>,
    session: AuthDataView,
)
    ensures
        run(
            server.apikey_create::<T>().0,
            seq![EventView::Session(Ok(session)), EventView::Status(STATUS_BAD_REQUEST)],
        ) == (
            finished::<T>(),
            seq![
                ActionView::<T>::Send(
                    authorized(server.request(APIKEY_ROUTE_V1@, Method::Post), session),
                ),
                ActionView::Return(Err(ApiServerErrorView::ApiError(APIKEY_PRESENT@))),
            ],
        ),
{
    lemma_run_two(
        server.apikey_create::<T>().0,
        EventView::Session(Ok(session)),
        EventView::Status(STATUS_BAD_REQUEST),
    );
}

/// A deletion is one request, whatever comes back. On status 200 it returns
/// success without reading the body. On any other status it reads the body
/// and fails with it as the message, and does not send again: to delete
/// what is gone already is a failure like any other.
pub proof fn law_delete_is_one_request<U>(
    server: HttpApiServerView<U>,
    id: ProjectId,
    session: AuthDataView,
    status: u16,
    text: Seq<char>,
)
    ensures
        run(
            server.delete(id).0,
            seq![EventView::Session(Ok(session)), EventView::Status(STATUS_OK)],
        ) == (
            finished::<()>(),
            seq![
                ActionView::<()>::Send(
                    authorized(server.request(project_path(id), Method::Delete), session),
                ),
                ActionView::Return(Ok(())),
            ],
        ),
        status != STATUS_OK ==> run(
            server.delete(id).0,
            seq![EventView::Session(Ok(session)), EventView::Status(status), EventView::Text(text)],
        ) == (
            finished::<()>(),
            seq![
                ActionView::<()>::Send(
                    authorized(server.request(project_path(id), Method::Delete), session),
                ),
                ActionView::ReadText,
                ActionView::Return(Err(ApiServerErrorView::ApiError(text))),
            ],
        ),
{
    lemma_run_two(
        server.delete(id).0,
        EventView::Session(Ok(session)),
        EventView::Status(STATUS_OK),
    );
    lemma_run_three(
        server.delete(id).0,
        EventView::Session(Ok(session)),
        EventView::Status(status),
        EventView::Text(text),
    );
}

} // verus!
