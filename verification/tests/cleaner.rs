use std::sync::mpsc;
use zecho::cleanup::cleaner::{next_step, settle_reply, CleanupJob, CleanupStep, MAX_ATTEMPTS};
use zecho::cleanup::{build_prompt, CleanupRequest, TextCleaner};
use zecho::settings::{CleanupLevel, WritingStyle};
use zecho::wire::escape_newlines;

fn reply_of(step: CleanupStep) -> Option<String> {
    match step {
        CleanupStep::Reply(text) => Some(text),
        CleanupStep::Retry => None,
    }
}

#[test]
fn a_new_cleaner_has_no_worker() {
    let cleaner = TextCleaner::new();
    assert!(!cleaner.is_ready());
    let result = cleaner.clean("um hi", &WritingStyle::Casual, &CleanupLevel::High, None, "m", "en");
    assert_eq!(result, Ok("um hi".to_string()));
}

#[test]
fn a_cleaner_is_ready_once_it_has_a_worker() {
    let (sender, _receiver) = mpsc::channel();
    let mut cleaner = TextCleaner::new();
    cleaner.start_worker(sender);
    assert!(cleaner.is_ready());
    let result = cleaner.clean("um hi", &WritingStyle::Casual, &CleanupLevel::Off, None, "m", "en");
    assert_eq!(result, Ok("um hi".to_string()));
}

#[test]
fn a_worker_that_is_gone_leaves_the_transcription() {
    let (sender, receiver) = mpsc::channel::<CleanupRequest>();
    drop(receiver);
    let mut cleaner = TextCleaner::new();
    cleaner.start_worker(sender);
    assert!(cleaner.is_ready());
    let result = cleaner.clean("um hi", &WritingStyle::Casual, &CleanupLevel::Light, None, "m", "en");
    assert_eq!(result, Ok("um hi".to_string()));
}

#[test]
fn a_request_carries_everything_over() {
    let (reply, replies) = mpsc::channel();
    let request = CleanupRequest::new(
        "um\nhi",
        &WritingStyle::Formal,
        &CleanupLevel::Medium,
        Some("Be brief"),
        "gemma4-e2b",
        "de",
        reply,
    );
    assert_eq!(request.raw_text, "um\nhi");
    assert_eq!(request.style, WritingStyle::Formal);
    assert_eq!(request.level, CleanupLevel::Medium);
    assert_eq!(request.custom_prompt, Some("Be brief".to_string()));
    assert_eq!(request.model_id, "gemma4-e2b");
    assert_eq!(request.language, "de");
    let prompt = build_prompt(
        "um\nhi",
        &WritingStyle::Formal,
        &CleanupLevel::Medium,
        Some("Be brief"),
        "gemma4-e2b",
        "de",
    );
    assert_eq!(request.line(), escape_newlines(&prompt));
    assert!(!request.line().contains('\n'));
    request.reply.send(Ok("hi".to_string())).unwrap();
    assert_eq!(replies.recv(), Ok(Ok("hi".to_string())));
}

#[test]
fn nothing_is_asked_without_need() {
    let ask = |cleaner: &TextCleaner, level: CleanupLevel| {
        cleaner
            .request_for("um hi", &WritingStyle::Formal, &level, Some("Be brief"), "m", "de")
            .map(|(request, _)| request)
    };
    let mut cleaner = TextCleaner::new();
    assert!(ask(&cleaner, CleanupLevel::High).is_none());
    let (sender, _receiver) = mpsc::channel();
    cleaner.start_worker(sender);
    assert!(ask(&cleaner, CleanupLevel::Off).is_none());
    let request = ask(&cleaner, CleanupLevel::High).unwrap();
    assert_eq!(request.raw_text, "um hi");
    assert_eq!(request.style, WritingStyle::Formal);
    assert_eq!(request.level, CleanupLevel::High);
    assert_eq!(request.custom_prompt, Some("Be brief".to_string()));
    assert_eq!(request.model_id, "m");
    assert_eq!(request.language, "de");
}

#[test]
fn a_usable_text_is_the_reply() {
    assert_eq!(reply_of(next_step("um hi there", Some("Hi there."), 1)), Some("Hi there.".to_string()));
    assert_eq!(reply_of(next_step("um hi there", Some("Hi there."), 2)), Some("Hi there.".to_string()));
}

#[test]
fn leaked_tags_are_tried_once_more() {
    assert_eq!(reply_of(next_step("um hi", Some("<|im_start|>hi"), 1)), None);
    assert_eq!(reply_of(next_step("um hi", Some("<|im_start|>hi"), 2)), Some("um hi".to_string()));
    assert_eq!(MAX_ATTEMPTS, 2);
}

#[test]
fn a_job_ends_after_two_attempts() {
    let mut job = CleanupJob::start("um hi");
    assert_eq!(reply_of(job.take_response(Some("hi <end_of"))), None);
    assert_eq!(reply_of(job.take_response(Some("hi <end_of"))), Some("um hi".to_string()));
    let mut job = CleanupJob::start("um hi");
    assert_eq!(reply_of(job.take_response(Some("hi <end_of"))), None);
    assert_eq!(reply_of(job.take_response(Some("Hi."))), Some("Hi.".to_string()));
    let mut job = CleanupJob::start("um hi");
    assert_eq!(reply_of(job.take_response(None)), Some("um hi".to_string()));
}

#[test]
fn the_transcription_stands_in_for_everything_else() {
    assert_eq!(reply_of(next_step("um hi", None, 1)), Some("um hi".to_string()));
    assert_eq!(reply_of(next_step("um hi", Some(""), 1)), Some("um hi".to_string()));
    let long = "x".repeat(100);
    assert_eq!(reply_of(next_step("um hi", Some(&long), 1)), Some("um hi".to_string()));
}

#[test]
fn a_reply_is_handed_on() {
    assert_eq!(settle_reply("raw", Some(Ok("text".to_string()))), Ok("text".to_string()));
    assert_eq!(settle_reply("raw", Some(Err("no".to_string()))), Err("no".to_string()));
    assert_eq!(settle_reply("raw", None), Ok("raw".to_string()));
}

#[test]
fn the_worker_answers_through_the_request() {
    let (sender, receiver) = mpsc::channel::<CleanupRequest>();
    let mut cleaner = TextCleaner::new();
    cleaner.start_worker(sender);
    let runtime = tokio::runtime::Builder::new_multi_thread().worker_threads(1).build().unwrap();
    let worker = runtime.spawn_blocking(move || {
        let request = receiver.recv().unwrap();
        let text = format!("cleaned {}", request.raw_text);
        request.reply.send(Ok(text)).unwrap();
        let request = receiver.recv().unwrap();
        drop(request);
    });
    let result = cleaner.clean("um hi", &WritingStyle::Casual, &CleanupLevel::Light, None, "m", "en");
    assert_eq!(result, Ok("cleaned um hi".to_string()));
    let result = cleaner.clean("um hi", &WritingStyle::Casual, &CleanupLevel::Light, None, "m", "en");
    assert_eq!(result, Ok("um hi".to_string()));
    runtime.block_on(worker).unwrap();
}

#[test]
fn a_request_is_answered_on_its_own_channel() {
    let (sender, _receiver) = mpsc::channel();
    let mut cleaner = TextCleaner::new();
    cleaner.start_worker(sender);
    let (request, replies) = cleaner
        .request_for("um hi", &WritingStyle::Casual, &CleanupLevel::Light, None, "m", "en")
        .unwrap();
    request.reply.send(Ok("Hi.".to_string())).unwrap();
    assert_eq!(replies.recv(), Ok(Ok("Hi.".to_string())));
}

#[test]
fn cleaning_gives_a_fit_text_whatever_the_model_answers() {
    let raw = "um hi there";
    let cases: Vec<(Vec<Option<&str>>, &str)> = vec![
        (vec![Some("  \"Hi there.\"  \n")], "Hi there."),
        (vec![Some("<|im_start|>hi"), Some("Hi there.<|im_end|>x")], "Hi there."),
        (vec![Some("hi <end_of"), Some("hi <start_of")], raw),
        (vec![Some("")], raw),
        (vec![Some("A reply that goes on for much longer than it was said")], raw),
        (vec![None], raw),
    ];
    let runtime = tokio::runtime::Builder::new_multi_thread().worker_threads(1).build().unwrap();
    for (answers, expected) in cases {
        let (sender, receiver) = mpsc::channel::<CleanupRequest>();
        let mut cleaner = TextCleaner::new();
        cleaner.start_worker(sender);
        let worker = runtime.spawn_blocking(move || {
            let request = receiver.recv().unwrap();
            let mut job = CleanupJob::start(&request.raw_text);
            for answer in answers {
                if let CleanupStep::Reply(text) = job.take_response(answer) {
                    request.reply.send(Ok(text)).unwrap();
                    return;
                }
            }
        });
        let result = cleaner.clean(raw, &WritingStyle::Casual, &CleanupLevel::Light, None, "m", "en");
        assert_eq!(result, Ok(expected.to_string()));
        runtime.block_on(worker).unwrap();
    }
}
