use anathema::component::{ComponentId, Emitter};
use anathema::prelude::ComponentBlueprintId;

use anathema_logging::{
    LogEntry, Logger, LoggerRegistrationError, LogLevel, LogViewerState, Registry,
    register_custom_logger, register_custom_logger_simple, send,
};

fn structured_id(raw: usize) -> ComponentId<LogEntry> {
    ComponentId::from(ComponentBlueprintId::from(raw))
}

fn rendered_id(raw: usize) -> ComponentId<String> {
    ComponentId::from(ComponentBlueprintId::from(raw))
}

#[test]
fn first_registration_succeeds() {
    let (emitter, _receiver) = Emitter::new();
    let mut registry = Registry::new();
    assert!(registry.current_binding().is_none());
    let result = register_custom_logger(structured_id(0), emitter, &mut registry);
    assert!(result.is_ok());
    assert!(registry.current_binding().is_some());
}

#[test]
fn second_registration_fails_without_side_effects() {
    let (emitter_a, receiver_a) = Emitter::new();
    let (emitter_b, _receiver_b) = Emitter::new();
    let mut registry = Registry::new();
    assert!(register_custom_logger(structured_id(0), emitter_a, &mut registry).is_ok());
    let second = register_custom_logger(structured_id(1), emitter_b, &mut registry);
    assert!(matches!(
        second,
        Err(LoggerRegistrationError::DoubleRegistrationError)
    ));
    // The first binding still works: a send is delivered to the first sink.
    assert!(send(&registry, LogLevel::Info, "worker", "after".to_string()).is_ok());
    let message = receiver_a.try_recv().expect("the first sink must still receive");
    let entry = message.payload().downcast::<LogEntry>().expect("structured record");
    assert_eq!(entry.msg, "after");
}

#[test]
fn rendered_registration_also_rejects_a_second_binding() {
    let (emitter_a, _receiver_a) = Emitter::new();
    let (emitter_b, _receiver_b) = Emitter::new();
    let mut registry = Registry::new();
    assert!(register_custom_logger_simple(rendered_id(0), emitter_a, &mut registry).is_ok());
    let second = register_custom_logger_simple(rendered_id(1), emitter_b, &mut registry);
    assert!(matches!(
        second,
        Err(LoggerRegistrationError::DoubleRegistrationError)
    ));
}

#[test]
fn send_without_binding_is_a_successful_no_op() {
    let registry = Registry::new();
    let result = send(&registry, LogLevel::Warn, "worker", "dropped".to_string());
    assert!(result.is_ok());
    assert!(registry.current_binding().is_none());
}

#[test]
fn structured_delivery_carries_the_record() {
    let (emitter, receiver) = Emitter::new();
    let mut registry = Registry::new();
    register_custom_logger(structured_id(0), emitter, &mut registry).unwrap();
    let result = anathema_logging::info(&registry, "workerA", "started".to_string());
    assert!(result.is_ok());
    let message = receiver.try_recv().expect("one message queued");
    let entry = message.payload().downcast::<LogEntry>().expect("structured record");
    assert_eq!(entry.level, LogLevel::Info);
    assert_eq!(entry.sender, "workerA");
    assert_eq!(entry.msg, "started");
    // Feeding the delivered record into the sink stores exactly one entry.
    let mut state = LogViewerState::default();
    state.handle_message(*entry);
    assert_eq!(state.length, 1);
    assert_eq!(state.log_entries[0].sender, "workerA");
}

#[test]
fn rendered_delivery_carries_the_formatted_line() {
    let (emitter, receiver) = Emitter::new();
    let mut registry = Registry::new();
    register_custom_logger_simple(rendered_id(0), emitter, &mut registry).unwrap();
    send(&registry, LogLevel::Warn, "workerA", "hello".to_string()).unwrap();
    let message = receiver.try_recv().expect("one message queued");
    let line = message.payload().downcast::<String>().expect("rendered line");
    assert_eq!(*line, "[WARN] workerA: hello");
}

#[test]
fn rendered_line_uses_the_canonical_display_name_per_level() {
    let cases = [
        (LogLevel::Info, "[INFO] s: m"),
        (LogLevel::Warn, "[WARN] s: m"),
        (LogLevel::Error, "[ERR] s: m"),
    ];
    for (level, expected) in cases {
        let (emitter, receiver) = Emitter::new();
        let mut registry = Registry::new();
        register_custom_logger_simple(rendered_id(0), emitter, &mut registry).unwrap();
        send(&registry, level, "s", "m".to_string()).unwrap();
        let line = receiver.try_recv().unwrap().payload().downcast::<String>().unwrap();
        assert_eq!(*line, expected);
    }
}

#[test]
fn send_reports_a_delivery_error_when_the_sink_is_gone() {
    let (emitter, receiver) = Emitter::new();
    let mut registry = Registry::new();
    register_custom_logger(structured_id(0), emitter, &mut registry).unwrap();
    drop(receiver);
    let result = send(&registry, LogLevel::Error, "worker", "lost".to_string());
    assert_eq!(result, Err(()));
}

#[test]
fn per_level_helpers_fix_the_level() {
    let (emitter, receiver) = Emitter::new();
    let mut registry = Registry::new();
    register_custom_logger(structured_id(0), emitter, &mut registry).unwrap();
    anathema_logging::info(&registry, "w", "i".to_string()).unwrap();
    anathema_logging::warn(&registry, "w", "w".to_string()).unwrap();
    anathema_logging::error(&registry, "w", "e".to_string()).unwrap();
    let levels: Vec<LogLevel> = (0..3)
        .map(|_| {
            receiver
                .try_recv()
                .unwrap()
                .payload()
                .downcast::<LogEntry>()
                .unwrap()
                .level
        })
        .collect();
    assert_eq!(levels, vec![LogLevel::Info, LogLevel::Warn, LogLevel::Error]);
}

#[test]
fn logger_handle_delegates_to_the_delivery_functions() {
    let (emitter, receiver) = Emitter::new();
    let mut registry = Registry::new();
    register_custom_logger(structured_id(0), emitter, &mut registry).unwrap();
    let logger = Logger;
    logger.send(&registry, LogLevel::Warn, "w", "a".to_string()).unwrap();
    logger.info(&registry, "w", "b".to_string()).unwrap();
    logger.warn(&registry, "w", "c".to_string()).unwrap();
    logger.error(&registry, "w", "d".to_string()).unwrap();
    let msgs: Vec<String> = (0..4)
        .map(|_| {
            receiver
                .try_recv()
                .unwrap()
                .payload()
                .downcast::<LogEntry>()
                .unwrap()
                .msg
                .clone()
        })
        .collect();
    assert_eq!(msgs, vec!["a", "b", "c", "d"]);
    // The empty-registry path through the handle succeeds trivially.
    let empty = Registry::new();
    assert!(logger.info(&empty, "w", "never seen".to_string()).is_ok());
}

#[test]
fn deliveries_on_one_channel_stay_fifo() {
    let (emitter, receiver) = Emitter::new();
    let mut registry = Registry::new();
    register_custom_logger(structured_id(0), emitter, &mut registry).unwrap();
    let mut state = LogViewerState::default();
    for i in 0..4 {
        send(&registry, LogLevel::Info, "w", format!("m{i}")).unwrap();
    }
    while let Ok(message) = receiver.try_recv() {
        let entry = message.payload().downcast::<LogEntry>().unwrap();
        state.handle_message(*entry);
        assert_eq!(state.length, state.log_entries.len());
    }
    let msgs: Vec<&str> = state.log_entries.iter().map(|e| e.msg.as_str()).collect();
    assert_eq!(msgs, vec!["m0", "m1", "m2", "m3"]);
}
