use data_sync_tool::workers::http_worker::offer_step;
use data_sync_tool::mq::message_bus::MessageBusFailureCause;
use data_sync_tool::worker::round_reads;
use data_sync_tool::mq::message_bus::MessageBusReceiver;
use data_sync_tool::mq::message_bus::MessageBusSender;
use data_sync_tool::workers::http_worker::SendAttempt;
use data_sync_tool::mq::message_bus::MessageBusError;
use data_sync_tool::mq::tokio_channel_mq::{create_tokio_broadcasting_channel, create_tokio_mpsc_channel};
use data_sync_tool::worker::WebsocketSyncWorker as StreamWorker;
use data_sync_tool::task::{GetTaskRequest, RequestMethod, SyncTask, TaskSpecification, TaskStatus};
use data_sync_tool::worker::{
    CommandStep, ReadOutput, SocketRead, SyncWorkerData, SyncWorkerErrorMessage, SyncWorkerMessage,
    WebAPISyncWorker as SingleTaskWebWorker, WorkerState as SingleTaskState,
};
use data_sync_tool::workers::errors::{RequestMethodNotSupported, SyncWorkerError};
use data_sync_tool::factory::Builder;
use data_sync_tool::workers::factory::{
    create_http_worker, create_web_api_sync_workers, create_websocket_sync_workers, create_websocket_worker,
    WebsocketSyncWorkerBuilder, WebsocketWorkerBuilder,
};
use data_sync_tool::workers::http_worker::{retry_attempts, RequestOutcome, SyncDecision, WebAPISyncWorker};
use data_sync_tool::workers::request::{build_headers, build_request, HttpMethod};
use data_sync_tool::workers::websocket_worker::WebsocketSyncWorker;
use data_sync_tool::workers::worker_traits::{SyncWorker, WorkerState};

fn task(method: RequestMethod, payload: Option<&str>) -> SyncTask {
    let spec = TaskSpecification::new(
        "http://api.example.com".to_string(),
        method,
        vec![("X-Key".to_string(), "abc".to_string())],
        payload.map(|p| p.to_string()),
    );
    SyncTask::new(1, Some(2), spec)
}

fn web_worker() -> WebAPISyncWorker<u8, u8, u8, u8> {
    WebAPISyncWorker::new(0, 0, 0, 0)
}

fn ws_worker() -> WebsocketSyncWorker<u8, u8, u8, u8> {
    WebsocketSyncWorker::new(0, 0, 0, 0)
}

#[test]
fn worker_it_should_build_header_from_hashmap() {
    let headers = vec![
        ("Cookie".to_string(), "_gh_sess=73%2FX%2F0EoXU1Tj4slthgAt%2B%2BQIdQJekXSbcXBbFfDv0erH%2BHv0oPGtZ7hfDCNpHVtEpFs%2BJcMXgCjK%2BFUG%2BrKS6v6rOAZeZF%2B0bMyia%2BNhr5HmavEbo5y8NbKY0xtXw966S%2FY9ILmNDD%2FZYSUfLX0fIcr1z7Fj5VGeEOeqXLlKtDuH8Y6Cqc%2F1kMpZ3A0uJCTKnKHmi4VmWPDNvkuDSPRNqc6DodQdUOA7w5rEzsqSn2aHjf3C1znSmGss1BNyE1jRreBpGNkjP3PaCJnyNgByOuu%2BHYFhOm3kA%3D%3D--NTzXHWgMFd29sCbV--lLZIz%2FqJxMV%2FxR0JGQEYFg%3D%3D; path=/; secure; HttpOnly; SameSite=Lax".to_string()),
        ("User-Agent".to_string(), "Mozilla/5.0 (Windows NT 10.0; Win64; x64) AppleWebKit/537.36 (KHTML, like Gecko) Chrome/114.0.0.0 Safari/537.36".to_string()),
    ];
    let header_map = build_headers(&headers);
    assert_eq!(header_map.len(), 2);
    assert_eq!(header_map[0].0, "cookie");
    assert_eq!(header_map[0].1, headers[0].1);
    assert_eq!(header_map[1].0, "user-agent");
    assert_eq!(header_map[1].1, headers[1].1);
}

#[test]
fn worker_serde_json_should_work() {
    let data = r#"
        {"300841": {"name": "康华生物", "open": 59.8, "close": 59.82, "date": "2023-07-14", "time": "15:35:00"}}
        "#;
    let worker = ws_worker();
    let parsed = worker.try_parse_message(data).expect("Parse failed");
    assert_eq!(parsed, data);
    let v: serde_json::Value = serde_json::from_str(&parsed).unwrap();
    assert_eq!(v["300841"]["name"], "康华生物");
}

#[test]
fn headers_that_cannot_be_sent_are_dropped() {
    let headers = vec![
        ("Good".to_string(), "tab\tand spaces ok".to_string()),
        ("Bad Name".to_string(), "v".to_string()),
        ("X-Newline".to_string(), "line\nbreak".to_string()),
        ("X-Unicode".to_string(), "café".to_string()),
    ];
    let kept = build_headers(&headers);
    assert_eq!(kept.len(), 2);
    assert_eq!(kept[0], ("good".to_string(), "tab\tand spaces ok".to_string()));
    assert_eq!(kept[1], ("x-unicode".to_string(), "café".to_string()));
}

#[test]
fn requests_carry_their_parameters_by_method() {
    let get = build_request("http://h/x", RequestMethod::Get, None, Some("{\"a\":1}".to_string())).unwrap();
    assert_eq!(get.method, HttpMethod::Get);
    assert_eq!(get.url, "http://h/x?{\"a\":1}");
    assert_eq!(get.json_body, None);
    let plain = build_request("http://h/x", RequestMethod::Get, None, None).unwrap();
    assert_eq!(plain.url, "http://h/x");
    let post = build_request(
        "http://h/y",
        RequestMethod::Post,
        Some(vec![("a".to_string(), "b".to_string())]),
        Some("[1]".to_string()),
    )
    .unwrap();
    assert_eq!(post.method, HttpMethod::Post);
    assert_eq!(post.url, "http://h/y");
    assert_eq!(post.json_body, Some("[1]".to_string()));
    assert_eq!(post.headers.len(), 1);
    let refused = build_request("ws://h", RequestMethod::Websocket, None, None);
    assert!(refused.is_err());
    assert_eq!(RequestMethodNotSupported.message(), "Request method is not supported for an http client!");
}

#[test]
fn web_worker_asks_for_tasks_only_while_busy() {
    let mut w = web_worker();
    assert_eq!(w.state, WorkerState::Idle);
    assert!(matches!(w.task_request(), Err(SyncWorkerError::NoTaskAssigned)));
    w.start_working(42);
    assert!(w.is_busy());
    assert_eq!(w.task_request().unwrap(), GetTaskRequest::new(42));
    w.wait();
    assert!(!w.is_busy());
    assert_eq!(w.assigned_sync_plan_id, Some(42));
    assert!(w.reassign_sync_plan(&43).is_ok());
    assert_eq!(w.current_state(), WorkerState::Idle);
    w.start_working(43);
    assert!(w.reassign_sync_plan(&44).is_ok());
    assert_eq!(w.current_state(), WorkerState::Stopped);
    assert_eq!(w.assigned_sync_plan_id, Some(44));
    assert!(SyncWorker::stop(&mut w).is_ok());
    assert_eq!(w.assigned_sync_plan_id, None);
}

#[test]
fn failed_task_requests_name_the_worker() {
    let w = web_worker();
    let id = uuid::Uuid::from_u128(w.id).to_string();
    assert_eq!(
        w.request_send_error(MessageBusError::<u8>::SenderClosed),
        SyncWorkerError::SendTaskRequestFailed(format!("Worker {}'s request sender channel is closed unexpectedly!", id))
    );
    assert_eq!(
        w.request_send_error(MessageBusError::<u8>::LockAcquistionFailed),
        SyncWorkerError::SendTaskRequestFailed(format!("Worker {} failed to request a task!", id))
    );
    assert!(matches!(w.received_task(None), Err(SyncWorkerError::NoTaskAssigned)));
}

#[test]
fn running_a_task_records_its_outcome() {
    let w = web_worker();
    let mut t = task(RequestMethod::Post, Some("{}"));
    let plan = w.begin_execution(&mut t, 5).unwrap();
    assert_eq!(t.status, TaskStatus::Running);
    assert_eq!(t.start_time, Some(5));
    assert_eq!(plan.json_body, Some("{}".to_string()));
    assert_eq!(plan.headers, vec![("x-key".to_string(), "abc".to_string())]);
    assert!(w.finish_execution(&mut t, RequestOutcome::Parsed("[1,2]".to_string()), 9).is_ok());
    assert_eq!(t.status, TaskStatus::Finished);
    assert_eq!(t.result, Some("[1,2]".to_string()));
    assert_eq!(t.end_time, Some(9));

    let mut t = task(RequestMethod::Get, None);
    let e = w.finish_execution(&mut t, RequestOutcome::SendFailed("timeout".to_string()), 3);
    assert_eq!(e, Err(SyncWorkerError::WebRequestFailed("timeout".to_string())));
    assert_eq!(t.status, TaskStatus::Failed);
    assert_eq!(t.result_message, Some("timeout".to_string()));

    let mut t = task(RequestMethod::Websocket, None);
    match w.begin_execution(&mut t, 1) {
        Err(SyncWorkerError::BuildRequestFailed(reason)) => {
            assert_eq!(reason, "Request method is not supported for an http client!");
            w.record_build_failure(&mut t, &reason, 2);
            assert_eq!(t.status, TaskStatus::Failed);
            assert_eq!(
                t.result_message,
                Some(format!("Failed to build request! Reason: {:?}", SyncWorkerError::BuildRequestFailed(reason)))
            );
        }
        _ => panic!("a websocket task cannot be requested"),
    }
}

#[test]
fn after_a_task_the_worker_goes_on_or_stops() {
    let mut w = web_worker();
    w.start_working(1);
    assert!(matches!(w.after_execution(Ok(())), SyncDecision::SendCompleted));
    assert!(matches!(w.after_execution(Err(SyncWorkerError::JsonParseFailed("x".to_string()))), SyncDecision::SendBackFailed));
    assert!(matches!(w.after_execution(Err(SyncWorkerError::ConnectionDroppedTimeout)), SyncDecision::SendBackFailed));
    assert_eq!(w.state, WorkerState::Working);
    assert!(matches!(w.after_execution(Err(SyncWorkerError::WorkerStopped)), SyncDecision::Stop(SyncWorkerError::WorkerStopped)));
    assert_eq!(w.state, WorkerState::Working);
    assert!(matches!(
        w.after_execution(Err(SyncWorkerError::BuildRequestFailed("b".to_string()))),
        SyncDecision::Stop(SyncWorkerError::BuildRequestFailed(_))
    ));
    assert_eq!(w.state, WorkerState::Idle);
    assert_eq!(retry_attempts(None), 5);
    assert_eq!(retry_attempts(Some(2)), 2);
}

#[test]
fn websocket_worker_streams_json_while_it_can() {
    let mut w = ws_worker();
    assert!(matches!(w.task_request(), Err(SyncWorkerError::NoTaskAssigned)));
    w.start_working(7);
    assert_eq!(w.task_request().unwrap(), GetTaskRequest::new(7));
    assert!(w.validate_task_spec(&task(RequestMethod::Websocket, None)).is_ok());
    let data = w.on_text_message(3, "{\"p\":1}", 100).unwrap();
    assert_eq!(data.sync_plan_id, 7);
    assert_eq!(data.task_id, 3);
    assert_eq!(data.data, Some("{\"p\":1}".to_string()));
    assert_eq!(data.received_time, 100);
    assert!(w.on_text_message(3, "not json", 100).is_none());
    assert!(matches!(w.try_parse_message("{"), Err(SyncWorkerError::JsonParseFailed(_))));
    match w.validate_task_spec(&task(RequestMethod::Get, None)) {
        Err(SyncWorkerError::BuildRequestFailed(m)) => assert_eq!(m, "Request method not supported!"),
        _ => panic!("only websocket tasks"),
    }
    assert_eq!(w.state, WorkerState::Idle);
    w.close_all_channels();
    assert_eq!(w.state, WorkerState::Stopped);
    assert!(matches!(w.inner_data_sender(), Err(SyncWorkerError::WorkerStopped)));
    assert!(matches!(w.stream_data(3, "1".to_string(), 0), Err(SyncWorkerError::WorkerStopped)));
    assert!(matches!(w.received_task(None), Err(SyncWorkerError::WorkerStopped)));
    assert_eq!(w.stream_send_error(MessageBusError::<u8>::SenderClosed), SyncWorkerError::WSStreamDataSendFailed(String::new()));
}

#[test]
fn workers_are_made_one_per_set_of_channels() {
    let ws = create_websocket_sync_workers(5, vec![1u8, 2], vec![1u8, 2, 3], vec![1u8, 2], vec![1u8, 2]);
    assert_eq!(ws.len(), 2);
    assert_eq!(ws[1].task_request_sender, Some(2));
    let web = create_web_api_sync_workers(1, vec![1u8, 2], vec![1u8, 2], vec![1u8, 2], vec![1u8, 2]);
    assert_eq!(web.len(), 1);
    let one = create_http_worker(1u8, 2u8, 3u8, 4u8);
    assert_eq!(one.failed_task_sender, 4);
    assert_eq!(one.state, WorkerState::Idle);
    let streaming = create_websocket_worker(5u8, 6u8, 7u8, 8u8);
    assert_eq!(streaming.data_sender, Some(7));
    assert_eq!(streaming.error_sender, Some(8));
    assert_eq!(streaming.state, WorkerState::Idle);
    assert_eq!(streaming.assigned_sync_plan_id, None);
}

#[test]
fn websocket_builder_keeps_what_it_was_given() {
    let builder: WebsocketSyncWorkerBuilder<u8, u8, u8, u8> = WebsocketSyncWorkerBuilder::new();
    let id = builder.id.unwrap();
    let worker = builder.with_data_sender(3).with_assigned_sync_plan_id(42).build();
    assert_eq!(worker.id, id);
    assert_eq!(worker.data_sender, Some(3));
    assert_eq!(worker.task_request_sender, None);
    assert_eq!(worker.assigned_sync_plan_id, Some(42));
    assert_eq!(worker.state, WorkerState::Idle);
}

#[test]
fn single_task_workers_follow_their_task() {
    let mut w = SingleTaskWebWorker::new();
    assert_eq!(w.state, SingleTaskState::Sleeping);
    let mut t = task(RequestMethod::Get, Some("1"));
    let plan = w.begin_handle(&mut t, 4).unwrap();
    assert_eq!(plan.url, "http://api.example.com?1");
    assert_eq!(w.state, SingleTaskState::Working);
    assert!(w.finish_handle(&mut t, RequestOutcome::Parsed("2".to_string()), 6).is_ok());
    assert_eq!(w.state, SingleTaskState::Sleeping);
    assert_eq!(t.status, TaskStatus::Finished);
}

#[test]
fn streaming_worker_reads_commands_and_messages() {
    let (data_tx, _data_rx) = create_tokio_mpsc_channel::<SyncWorkerData>(4);
    let (_cmd_tx, cmd_rx) = create_tokio_broadcasting_channel::<SyncWorkerMessage>(4);
    let (err_tx, _err_rx) = create_tokio_mpsc_channel::<SyncWorkerErrorMessage>(4);
    let mut w = StreamWorker::new(data_tx, cmd_rx, err_tx);
    let mut t = task(RequestMethod::Websocket, None);
    assert!(w.begin_handle(&mut t, 1).is_ok());
    assert_eq!(w.on_command(&mut t, Some(SyncWorkerMessage::DataRecieverStopped), 2), CommandStep::KeepRunning);
    assert_eq!(w.on_command(&mut t, Some(SyncWorkerMessage::StopReceiveData), 3), CommandStep::LastRound);
    assert_eq!(t.status, TaskStatus::Finished);
    assert_eq!(w.on_command(&mut t, None, 4), CommandStep::ChannelClosed);
    assert!(matches!(w.on_read(SocketRead::Text("[1]".to_string())), Some(ReadOutput::Data(SyncWorkerData::Data(d))) if d == "[1]"));
    assert!(matches!(w.on_read(SocketRead::Text("x".to_string())), Some(ReadOutput::Error(SyncWorkerErrorMessage::OtherError(_)))));
    assert!(matches!(w.on_read(SocketRead::Failed("e".to_string())), Some(ReadOutput::Error(SyncWorkerErrorMessage::NoDataReceived))));
    assert!(w.on_read(SocketRead::Other).is_none());
    let mut t2 = task(RequestMethod::Get, None);
    let report = w.connection_failed(&mut t2, "refused".to_string(), 5);
    assert!(matches!(report, SyncWorkerErrorMessage::WebsocketConnectionFailed(m) if m == "refused"));
    assert_eq!(w.state, SingleTaskState::Stopped);
}

#[test]
fn finished_and_failed_tasks_are_offered_up_to_the_retry_limit() {
    let (done_tx, mut done_rx) = create_tokio_broadcasting_channel::<SyncTask>(4);
    let (failed_tx, failed_rx) = create_tokio_broadcasting_channel::<SyncTask>(4);
    drop(failed_rx);
    let w = WebAPISyncWorker::new(0u8, 0u8, done_tx, failed_tx);

    let (sent, attempts) = w.send_completed_task(task(RequestMethod::Get, None), Some(5));
    assert!(sent.is_ok());
    assert_eq!(attempts, vec![SendAttempt::Sent]);
    assert_eq!(done_rx.try_recv().ok().map(|t| t.id), Some(1));

    let (sent, attempts) = w.send_failed_task(task(RequestMethod::Get, None), None);
    assert_eq!(sent, Err(SyncWorkerError::ResendTaskFailed));
    assert_eq!(attempts.len(), 5);
    assert!(attempts.iter().all(|a| matches!(a, SendAttempt::Refused(_))));

    let (sent, attempts) = w.send_completed_task(task(RequestMethod::Get, None), Some(0));
    assert_eq!(sent, Err(SyncWorkerError::CompleteTaskSendFailed));
    assert!(attempts.is_empty());
}

#[test]
fn a_closed_channel_refuses_every_attempt() {
    let (mut done_tx, _done_rx) = create_tokio_broadcasting_channel::<SyncTask>(4);
    let (failed_tx, _failed_rx) = create_tokio_broadcasting_channel::<SyncTask>(4);
    done_tx.close();
    let w = WebAPISyncWorker::new(0u8, 0u8, done_tx, failed_tx);
    let (sent, attempts) = w.send_completed_task(task(RequestMethod::Get, None), Some(5));
    assert_eq!(sent, Err(SyncWorkerError::CompleteTaskSendFailed));
    assert_eq!(attempts, vec![SendAttempt::Lost; 5]);
}

#[test]
fn header_names_must_be_tokens() {
    let headers = vec![
        ("X-Key".to_string(), "abc".to_string()),
        ("bad name".to_string(), "x".to_string()),
        ("".to_string(), "x".to_string()),
        ("Ok!#$%&'*+-.^_`|~9".to_string(), "v".to_string()),
        ("caf\u{e9}".to_string(), "v".to_string()),
    ];
    let kept = build_headers(&headers);
    let names: Vec<String> = kept.iter().map(|(n, _)| n.clone()).collect();
    assert_eq!(names, vec!["x-key".to_string(), "ok!#$%&'*+-.^_`|~9".to_string()]);
}

#[test]
fn a_stream_ends_with_every_channel_closed() {
    let (data_tx, _data_rx) = create_tokio_mpsc_channel::<SyncWorkerData>(4);
    let (_cmd_tx, cmd_rx) = create_tokio_broadcasting_channel::<SyncWorkerMessage>(4);
    let (err_tx, _err_rx) = create_tokio_mpsc_channel::<SyncWorkerErrorMessage>(4);
    let mut w = StreamWorker::new(data_tx, cmd_rx, err_tx);
    let mut t = task(RequestMethod::Websocket, None);
    assert!(w.begin_handle(&mut t, 1).is_ok());
    let step = w.on_command(&mut t, Some(SyncWorkerMessage::DataRecieverStopped), 2);
    assert!(round_reads(step));
    assert!(w.finish_round(step));
    assert_eq!(w.state, SingleTaskState::Working);
    assert!(!w.data_sender.closed);
    let step = w.on_command(&mut t, Some(SyncWorkerMessage::StopReceiveData), 3);
    assert!(round_reads(step));
    assert!(!w.finish_round(step));
    assert_eq!(w.state, SingleTaskState::Stopped);
    assert!(w.data_sender.closed && w.error_sender.closed && w.worker_command_receiver.closed);
    assert!(!round_reads(CommandStep::ChannelClosed));
}

#[test]
fn a_web_task_plans_its_own_request() {
    let w = web_worker();
    let mut t = task(RequestMethod::Post, Some("{\"a\":1}"));
    let plan = w.begin_execution(&mut t, 5).unwrap();
    assert_eq!(plan.method, HttpMethod::Post);
    assert_eq!(plan.url, "http://api.example.com");
    assert_eq!(plan.json_body, Some("{\"a\":1}".to_string()));
    assert_eq!(plan.headers, vec![("x-key".to_string(), "abc".to_string())]);
    let mut old_worker = SingleTaskWebWorker::new();
    let mut g = task(RequestMethod::Get, Some("q=1"));
    let plan = old_worker.begin_handle(&mut g, 6).unwrap();
    assert_eq!(plan.method, HttpMethod::Get);
    assert_eq!(plan.url, "http://api.example.com?q=1");
    assert_eq!(plan.json_body, None);
}

#[test]
fn each_answer_makes_one_attempt() {
    assert!(matches!(offer_step(Ok(())), (SendAttempt::Sent, None)));
    let (a, back) = offer_step(Err(MessageBusError::SendFailed(task(RequestMethod::Get, None), MessageBusFailureCause::Full)));
    assert_eq!(a, SendAttempt::Refused(MessageBusFailureCause::Full));
    assert_eq!(back.map(|t| t.id), Some(1));
    assert!(matches!(offer_step(Err(MessageBusError::SenderClosed)), (SendAttempt::Lost, None)));
}
