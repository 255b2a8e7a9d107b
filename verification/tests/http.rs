use foxtive_ntex::helpers::form::ReasonPayload;
use foxtive_ntex::helpers::http::{date_from_unsafe_input, QueryParams};
use foxtive_ntex::http::extractors::json_body::JsonBody;
use foxtive_ntex::http::extractors::string_body::StringBody;
use foxtive_ntex::http::middlewares::{decide, Action, Event, MiddlewareKind};
use foxtive_ntex::http::kernel::{
    plan_scope, register_routes, setup_cors, setup_logger, Controller, CorsMethods, Route,
};
use foxtive_ntex::http::response::{
    into_app_result, make_http_error_response, make_response, respond, respond_blocking,
    respond_blocking_failure, respond_either, respond_result, send_result, ResponseError,
};
use foxtive_ntex::http::server::{KeepAlive, ServerConfig, StaticFileConfig};
use foxtive_ntex::setup::state::{create_app_state, FoxtiveNtexSetup};
use foxtive_ntex::{
    AppFailure, AppNotice, Blocking, ErrorMessage, HttpError, InputError, MultipartError,
};
use ntex::http::Method;

fn notice(status: u16, message: &str) -> AppNotice {
    AppNotice {
        status,
        message: message.to_string(),
    }
}

fn internal() -> AppNotice {
    notice(500, "Internal Server Error")
}

#[test]
fn test_app_error() {
    let error = HttpError::AppError(AppFailure::Message(internal()));
    let app_error = make_http_error_response(&error);
    assert_eq!(app_error.status, 500);
}

#[test]
fn test_app_message() {
    let error = HttpError::AppMessage(internal());
    let app_error = make_http_error_response(&error);
    assert_eq!(app_error.status, 500);
}

#[test]
fn test_std_error() {
    let error = HttpError::Std(
        std::io::Error::new(std::io::ErrorKind::Other, "Test").to_string(),
    );
    let app_error = make_http_error_response(&error);
    assert_eq!(app_error.status, 500);
    assert_eq!(app_error.message, "Internal Server Error");
    assert_eq!(app_error.data, None);
}

#[test]
fn test_payload_error() {
    let error = HttpError::PayloadError("overflow".to_string());
    let app_error = make_http_error_response(&error);
    assert_eq!(app_error.status, 400);
    assert_eq!(app_error.message, "Payload Error");
    assert_eq!(app_error.data, Some("overflow".to_string()));
}

#[test]
fn test_validation_error() {
    let error = HttpError::ValidationError("{}".to_string());
    let app_error = make_http_error_response(&error);
    assert_eq!(app_error.status, 400);
    assert_eq!(app_error.message, "Validation Error");
}

#[test]
fn test_multipart_error() {
    let error = HttpError::MultipartError(MultipartError::ValidationError(InputError {
        error: ErrorMessage::InvalidFileExtension(Some("mp4".to_string())),
        name: "image".to_string(),
    }));

    let app_error = make_http_error_response(&error);

    assert_eq!(app_error.status, 415);
    assert_eq!(app_error.message, "File Upload Error");
    assert_eq!(
        app_error.data,
        Some("Invalid file extension for field 'image': .mp4".to_string())
    );
    assert_eq!(error.status_code(), 415);
}

#[test]
fn every_failure_has_a_status() {
    let upload = |error| {
        HttpError::MultipartError(MultipartError::ValidationError(InputError {
            error,
            name: "f".to_string(),
        }))
    };
    assert_eq!(
        upload(ErrorMessage::InvalidContentType("x".to_string())).status_code(),
        415
    );
    assert_eq!(upload(ErrorMessage::NoFiles).status_code(), 400);
    assert_eq!(upload(ErrorMessage::FileTooLarge(1)).status_code(), 400);
    assert_eq!(
        HttpError::MultipartError(MultipartError::ParseError("x".to_string())).status_code(),
        400
    );
    assert_eq!(
        HttpError::MultipartError(MultipartError::NoFile).status_code(),
        400
    );
    assert_eq!(HttpError::Utf8Error("x".to_string()).status_code(), 500);
    assert_eq!(HttpError::Std("x".to_string()).status_code(), 500);
    assert_eq!(HttpError::AppMessage(notice(404, "gone")).status_code(), 404);
    assert_eq!(
        HttpError::AppError(AppFailure::Json("x".to_string())).status_code(),
        400
    );
    assert_eq!(
        HttpError::AppError(AppFailure::Other("x".to_string())).status_code(),
        500
    );
    assert_eq!(
        HttpError::AppError(AppFailure::BlockingCanceled).status_code(),
        500
    );
    assert_eq!(
        HttpError::AppError(AppFailure::BlockingMessage(notice(409, "x"))).status_code(),
        409
    );
    let wrapped = HttpError::PayloadError("x".to_string()).into_app_error();
    assert_eq!(HttpError::AppError(wrapped).status_code(), 400);
}

#[test]
fn application_errors_are_answered() {
    let reply = make_response(&AppFailure::Json("secret".to_string()));
    assert_eq!(reply.status, 400);
    assert_eq!(reply.message, "Data processing error");
    assert_eq!(reply.data, None);
    let reply = make_response(&AppFailure::Message(notice(403, "no")));
    assert_eq!((reply.status, reply.message.as_str()), (403, "no"));
    let reply = make_response(&AppFailure::BlockingCanceled);
    assert_eq!(
        (reply.status, reply.message.as_str()),
        (500, "Internal Server Error")
    );
    let reply = make_response(&HttpError::PayloadError("p".to_string()).into_app_error());
    assert_eq!(reply.status, 400);
    assert_eq!(reply.data, Some("p".to_string()));
    let upload = |error| {
        HttpError::MultipartError(MultipartError::ValidationError(InputError {
            error,
            name: "f".to_string(),
        }))
    };
    let reply = make_http_error_response(&upload(ErrorMessage::InvalidContentType(
        "x".to_string(),
    )));
    assert_eq!(reply.status, 415);
    let reply = make_http_error_response(&upload(ErrorMessage::TooFewFiles(0)));
    assert_eq!(reply.status, 400);
    let reply = make_response(&upload(ErrorMessage::InvalidFileExtension(None)).into_app_error());
    assert_eq!(reply.status, 415);
    let reply = make_http_error_response(&HttpError::MultipartError(
        MultipartError::MissingDataField("a".to_string()),
    ));
    assert_eq!(reply.status, 400);
    assert_eq!(reply.data, Some("Data field 'a' is required".to_string()));
}

#[test]
fn response_error_keeps_status() {
    let error = ResponseError::from_http(HttpError::AppMessage(notice(404, "gone")));
    assert_eq!(error.status_code(), 404);
    assert_eq!(error.error_response().message, "gone");
    let error = ResponseError::from_http(HttpError::Std("boom".to_string()));
    assert_eq!(error.status_code(), 500);
    let error = ResponseError::from_http(HttpError::PayloadError("p".to_string()));
    assert_eq!(error.status_code(), 400);
    let error = ResponseError::new(AppFailure::Json("x".to_string()));
    assert_eq!(error.status_code(), 400);
}

#[test]
fn test_app_message_respond_success() {
    let msg = notice(200, "Yes");
    let result = respond(msg);
    assert!(result.is_ok());
}

#[test]
fn test_app_message_respond_error() {
    let msg = internal();
    let result = respond(msg);
    assert!(result.is_err());
}

#[test]
fn test_app_message_result_respond() {
    let msg: Result<AppNotice, AppFailure> = Ok(internal());
    let result = respond_result(msg);
    assert!(result.is_err());
}

#[test]
fn test_app_message_result_error_respond() {
    let msg = Err(internal());
    let result = respond_either(msg);
    assert!(result.is_err());
}

#[test]
fn test_app_message_result_blocking_error_respond() {
    let msg = Err(Blocking::Error(AppFailure::Message(internal())));
    let result = respond_blocking_failure(msg);
    assert!(result.is_err());
}

#[test]
fn test_app_message_result_blocking_error_canceled_respond() {
    let msg: Result<AppNotice, Blocking<AppNotice>> = Err(Blocking::Canceled);
    let result = respond_blocking(msg);
    assert!(result.is_err());

    let msg: Result<AppNotice, Blocking<AppNotice>> = Ok(notice(200, "Yep"));
    let status = respond_blocking(msg).unwrap().status;
    assert_eq!(status, 200);

    let msg: Result<AppNotice, Blocking<AppNotice>> = Err(Blocking::Error(notice(400, "Hmm")));
    let status = respond_blocking(msg).unwrap_err().status_code();
    assert_eq!(status, 400);
}

#[test]
fn test_app_message_result_blocking_error_canceled_respond_with_error() {
    let msg: Result<AppNotice, Blocking<AppFailure>> = Err(Blocking::Canceled);
    let result = respond_blocking_failure(msg);
    assert!(result.is_err());
    assert_eq!(result.unwrap_err().status_code(), 500);
}

#[test]
fn blocking_results_become_application_results() {
    let ok: Result<u8, Blocking<AppNotice>> = Ok(1);
    assert_eq!(into_app_result(ok).unwrap(), 1);
    let failed: Result<u8, Blocking<AppNotice>> = Err(Blocking::Error(notice(400, "invalid")));
    match into_app_result(failed) {
        Err(AppFailure::Message(n)) => assert_eq!(n.status, 400),
        other => panic!("unexpected outcome: {other:?}"),
    }
    let cancelled: Result<u8, Blocking<AppNotice>> = Err(Blocking::Canceled);
    match into_app_result(cancelled) {
        Err(AppFailure::Message(n)) => assert_eq!(n.status, 500),
        other => panic!("unexpected outcome: {other:?}"),
    }
    match HttpError::from_blocking(Blocking::Canceled) {
        HttpError::AppMessage(n) => assert_eq!(n.status, 500),
        other => panic!("unexpected outcome: {other:?}"),
    }
}

#[test]
fn scopes_wrap_first_second_and_last_middleware() {
    assert_eq!(plan_scope("/api", "/users", 0).wraps, Vec::<usize>::new());
    assert_eq!(plan_scope("/api", "/users", 1).wraps, vec![0]);
    assert_eq!(plan_scope("/api", "/users", 2).wraps, vec![0, 1]);
    assert_eq!(plan_scope("/api", "/users", 3).wraps, vec![0, 1, 2]);
    assert_eq!(plan_scope("/api", "/users", 5).wraps, vec![0, 1, 4]);
    assert_eq!(plan_scope("/api", "/users", 5).path, "/api/users");
    // the root scope is never wrapped
    assert_eq!(plan_scope("", "", 5).wraps, Vec::<usize>::new());
}

#[test]
fn routes_are_registered_in_order() {
    let routes = vec![
        Route {
            prefix: "/a".to_string(),
            middlewares: 1,
            controllers: vec![
                Controller {
                    path: "/x".to_string(),
                },
                Controller {
                    path: "/y".to_string(),
                },
            ],
        },
        Route {
            prefix: "".to_string(),
            middlewares: 0,
            controllers: vec![],
        },
        Route {
            prefix: "/b".to_string(),
            middlewares: 0,
            controllers: vec![Controller {
                path: "".to_string(),
            }],
        },
    ];
    let scopes = register_routes(&routes);
    let paths: Vec<&str> = scopes.iter().map(|s| s.path.as_str()).collect();
    assert_eq!(paths, vec!["/a/x", "/a/y", "/b"]);
    assert_eq!(scopes[0].wraps, vec![0]);
    assert_eq!(scopes[2].wraps, Vec::<usize>::new());
}

#[test]
fn cors_names_every_origin_and_defaults_the_methods() {
    let plan = setup_cors(vec!["*".to_string(), "https://a.example".to_string()], vec![]);
    assert_eq!(plan.origins, vec!["All", "https://a.example"]);
    assert!(matches!(plan.methods, CorsMethods::Standard));
    assert_eq!(plan.max_age, 3600);
    let plan = setup_cors(vec![], vec![Method::GET]);
    match plan.methods {
        CorsMethods::Given(methods) => assert_eq!(methods, vec![Method::GET]),
        CorsMethods::Standard => panic!("expected the given methods"),
    }
}

#[test]
fn logger_leaves_out_health_checks() {
    assert_eq!(
        setup_logger(),
        vec![
            "/favicon.ico",
            "/system/health-check",
            "/api/v1/admin/health-check"
        ]
    );
}

#[test]
fn server_config_defaults_and_setters() {
    let config = ServerConfig::create("127.0.0.1", 8080);
    assert_eq!(config.host, "127.0.0.1");
    assert_eq!(config.port, 8080);
    assert_eq!(config.workers, 2);
    assert_eq!(config.max_connections, 25_000);
    assert_eq!(config.max_connections_rate, 256);
    assert_eq!(config.client_timeout, 3);
    assert_eq!(config.client_disconnect, 5);
    assert_eq!(config.keep_alive, KeepAlive::Timeout(5));
    assert_eq!(config.backlog, 2048);
    assert_eq!(config.app, "foxtive");
    assert_eq!(config.static_config.path, "static");
    assert_eq!(config.static_config.dir, "./static");
    assert!(config.needs_bootstrap());

    let config = config
        .app("shop")
        .workers(8)
        .backlog(64)
        .keep_alive(KeepAlive::Os)
        .client_timeout(0)
        .client_disconnect(9)
        .max_conn(10)
        .max_conn_rate(11)
        .allowed_origins(vec!["*".to_string()])
        .allowed_methods(vec![Method::POST])
        .has_started_bootstrap(true);
    assert_eq!(config.app, "shop");
    assert_eq!(config.workers, 8);
    assert_eq!(config.backlog, 64);
    assert_eq!(config.keep_alive, KeepAlive::Os);
    assert_eq!(config.client_timeout, 0);
    assert_eq!(config.client_disconnect, 9);
    assert_eq!(config.max_connections, 10);
    assert_eq!(config.max_connections_rate, 11);
    assert_eq!(config.allowed_origins, vec!["*"]);
    assert_eq!(config.allowed_methods, vec![Method::POST]);
    assert!(!config.needs_bootstrap());
    assert_eq!(config.host, "127.0.0.1");

    let config = ServerConfig::create_with_static(
        "h",
        1,
        StaticFileConfig {
            path: "assets".to_string(),
            dir: "./public".to_string(),
        },
    );
    assert_eq!(config.static_config.path, "assets");
    assert_eq!(config.static_config.dir, "./public");
}

#[test]
fn state_keeps_origins_and_methods() {
    let state = create_app_state(FoxtiveNtexSetup {
        allowed_origins: vec!["a".to_string()],
        allowed_methods: vec![Method::PUT],
    });
    assert_eq!(state.allowed_origins, vec!["a"]);
    assert_eq!(state.allowed_methods, vec![Method::PUT]);
    assert_eq!(state.describe(), "application state");
}

#[test]
fn query_params_default_and_cap() {
    let params = QueryParams::default();
    assert_eq!(params.search(), None);
    assert_eq!(params.search_query(), "");
    assert_eq!(params.search_query_like(), "%%");
    assert_eq!(params.limit(), 10);
    assert_eq!(params.curr_page(), 1);
    assert_eq!(params.per_page(), 10);

    let params = QueryParams {
        search: Some("tea".to_string()),
        limit: Some(500),
        page: Some(3),
        per_page: Some(150),
        ..Default::default()
    };
    assert_eq!(params.search(), Some("tea".to_string()));
    assert_eq!(params.search_query_like(), "%tea%");
    assert_eq!(params.limit(), 150);
    assert_eq!(params.curr_page(), 3);
    assert_eq!(params.per_page(), 150);

    let params = QueryParams {
        limit: Some(-4),
        per_page: Some(149),
        ..Default::default()
    };
    assert_eq!(params.limit(), -4);
    assert_eq!(params.per_page(), 149);
}

#[test]
fn dates_are_read_at_midnight() {
    let date = date_from_unsafe_input("2024-02-29", "start date").unwrap();
    assert_eq!(date.to_string(), "2024-02-29 00:00:00");
    let err = date_from_unsafe_input("2024-02-30", "start date").unwrap_err();
    assert_eq!(err.status, 400);
    assert_eq!(
        err.message,
        "Invalid start date input value(2024-02-30), please make sure it's valid date; input is out of range"
    );
}

#[test]
fn reason_length_is_counted_in_characters() {
    let reason = |text: &str| ReasonPayload {
        reason: text.to_string(),
    };
    assert!(!reason("ab").has_valid_length());
    assert!(reason("abc").has_valid_length());
    assert!(reason("äöü").has_valid_length());
    assert!(reason(&"x".repeat(1500)).has_valid_length());
    assert!(!reason(&"x".repeat(1501)).has_valid_length());
}

#[test]
fn a_before_middleware_goes_first() {
    let kind = MiddlewareKind::Before;
    assert_eq!(decide(kind, Event::Arrived), Action::RunMiddleware);
    assert_eq!(decide(kind, Event::MiddlewarePassed), Action::CallHandler);
    assert_eq!(decide(kind, Event::HandlerAnswered), Action::Respond);
    assert_eq!(
        decide(kind, Event::MiddlewareFailed),
        Action::FailWithMiddlewareError
    );
    assert_eq!(
        decide(kind, Event::HandlerFailed),
        Action::FailWithHandlerError
    );
}

#[test]
fn an_after_middleware_goes_second() {
    let kind = MiddlewareKind::After;
    assert_eq!(decide(kind, Event::Arrived), Action::CallHandler);
    assert_eq!(decide(kind, Event::HandlerAnswered), Action::RunMiddleware);
    assert_eq!(decide(kind, Event::MiddlewarePassed), Action::Respond);
    assert_eq!(
        decide(kind, Event::MiddlewareFailed),
        Action::FailWithMiddlewareError
    );
    assert_eq!(
        decide(kind, Event::HandlerFailed),
        Action::FailWithHandlerError
    );
}

#[test]
fn bodies_are_decoded_from_bytes() {
    let body = StringBody::from_bytes(&"héllo".as_bytes().to_vec()).unwrap();
    assert_eq!(body.body(), "héllo");
    let body = JsonBody::from_bytes(&b"{}".to_vec()).unwrap();
    assert_eq!(body.body(), "{}");
    match StringBody::from_bytes(&vec![0x68, 0xff]) {
        Err(HttpError::Utf8Error(text)) => {
            assert_eq!(text, "invalid utf-8 sequence of 1 bytes from index 1")
        }
        _ => panic!("expected a failure"),
    }
    match JsonBody::from_bytes(&vec![0xff]) {
        Err(e) => assert_eq!(e.status_code(), 500),
        _ => panic!("expected a failure"),
    }
}

#[test]
fn test_result_response_send_result_ok() {
    let result: Result<AppNotice, AppNotice> = Ok(notice(404, ""));

    let response = send_result(result, 404);
    match response {
        Ok(responder) => {
            assert_eq!(responder.status, 404);
        }
        Err(e) => panic!("Expected Ok, but got Err: {:?}", e),
    }
}

#[test]
fn test_result_response_send_result_err() {
    let err = notice(404, "app");
    let result: Result<AppNotice, AppNotice> = Err(err);

    let response = send_result(result, 404);
    match response {
        Ok(_) => panic!("Expected Err, but got Ok"),
        Err(e) => {
            // Verify that the error was correctly propagated
            assert_eq!(e.status_code(), 404);
        }
    }
}

#[test]
fn test_respond_error() {
    let error = Blocking::Canceled;
    let result: Result<(), Blocking<AppNotice>> = Err(error);

    match into_app_result(result) {
        Ok(_) => panic!("Expected Err, but got OK"),
        Err(e) => {
            assert_eq!(HttpError::AppError(e).status_code(), 500);
        }
    }
}

#[test]
fn test_respond_msg_error() {
    let error = Blocking::Error(notice(400, "invalid"));
    let result: Result<(), Blocking<AppNotice>> = Err(error);

    match into_app_result(result) {
        Ok(_) => panic!("Expected Err, but got Ok"),
        Err(e) => {
            assert_eq!(HttpError::AppError(e).status_code(), 400);
        }
    }
}
