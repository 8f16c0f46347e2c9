use zoom_sync::board::{BoardError, FailureReason};
use zoom_sync::session::{AckPolicy, Exchange, Packet, Reply, Transfer};
use zoom_sync::tiga::abi::image_end;
use zoom_sync::zoom65v3::abi;
use zoom_sync::zoom65v3::board::Zoom65v3;
use zoom_sync::zoom65v3::types::UploadChannel;
use zoom_sync::zoom65v3::upload::upload_reports;

fn acked() -> Reply {
    Reply::Answer(vec![88, 1, 1, 0, 0])
}

#[test]
fn fire_and_forget_takes_anything_after_the_write() {
    let exchange = Exchange::new(Packet::Frame(image_end()), AckPolicy::FireAndForget);
    assert_eq!(exchange.progress, None);
    assert_eq!(exchange.judge(Reply::Silence), Ok(vec![]));
    assert_eq!(exchange.judge(Reply::ReadFailed(String::from("timeout"))), Ok(vec![]));
    assert_eq!(exchange.judge(Reply::Answer(vec![1, 2, 3])), Ok(vec![1, 2, 3]));
    assert_eq!(
        exchange.judge(Reply::WriteFailed(String::from("unplugged"))),
        Err(BoardError::Transport(String::from("unplugged")))
    );
}

#[test]
fn status_bytes_must_both_report_success() {
    let exchange = Zoom65v3.screen_up();
    assert_eq!(exchange.ack, AckPolicy::StatusBytes);
    assert_eq!(exchange.judge(acked()), Ok(vec![88, 1, 1, 0, 0]));
    assert_eq!(exchange.judge(Reply::Answer(vec![88, 1, 1])), Ok(vec![88, 1, 1]));
    let rejected = Err(BoardError::CommandFailed(FailureReason::Rejected));
    assert_eq!(exchange.judge(Reply::Answer(vec![88, 1, 0])), rejected);
    assert_eq!(exchange.judge(Reply::Answer(vec![88, 0, 1])), rejected);
    assert_eq!(exchange.judge(Reply::Answer(vec![88, 2, 1])), rejected);
    // the answer has to echo the command marker
    assert_eq!(exchange.judge(Reply::Answer(vec![1, 1, 1])), rejected);
    // and hold both status bytes
    assert_eq!(exchange.judge(Reply::Answer(vec![88, 1])), rejected);
    assert_eq!(exchange.judge(Reply::Answer(vec![])), rejected);
    assert_eq!(
        exchange.judge(Reply::Silence),
        Err(BoardError::CommandFailed(FailureReason::NoAnswer))
    );
    assert_eq!(
        exchange.judge(Reply::ReadFailed(String::from("gone"))),
        Err(BoardError::Transport(String::from("gone")))
    );
    assert_eq!(
        exchange.judge(Reply::WriteFailed(String::from("gone"))),
        Err(BoardError::Transport(String::from("gone")))
    );
}

#[test]
fn packets_as_bytes() {
    let frame = Packet::Frame(image_end());
    assert_eq!(frame.len(), 32);
    assert_eq!(frame.to_vec(), image_end().to_vec());
    let report = Packet::Report(abi::get_version());
    assert_eq!(report.len(), 33);
    assert_eq!(report.to_vec(), abi::get_version().to_vec());
}

#[test]
fn a_run_goes_through_its_exchanges_in_order() {
    let plan = upload_reports(&[1, 2, 3], UploadChannel::Image);
    let mut run = Transfer::new(plan.clone());
    let mut seen = 0;
    while let Some(exchange) = run.pending() {
        assert_eq!(exchange, plan[seen]);
        assert_eq!(run.completed(), seen);
        run.record(acked());
        seen += 1;
    }
    assert_eq!(seen, plan.len());
    assert_eq!(run.completed(), plan.len());
    assert_eq!(run.finish(), Some(Ok(())));
}

#[test]
fn a_run_stops_at_the_first_failure() {
    let plan = upload_reports(&[0u8; 100], UploadChannel::Gif);
    let mut run = Transfer::new(plan.clone());
    run.record(acked());
    run.record(acked());
    run.record(acked());
    assert_eq!(run.pending(), Some(plan[3]));
    run.record(Reply::Answer(vec![88, 1, 0]));
    assert_eq!(run.pending(), None);
    assert_eq!(run.completed(), 3);
    // nothing is retried, and later replies change nothing
    run.record(acked());
    assert_eq!(run.pending(), None);
    assert_eq!(run.completed(), 3);
    assert_eq!(run.finish(), Some(Err(BoardError::CommandFailed(FailureReason::Rejected))));
}

#[test]
fn an_unfinished_run_has_no_result() {
    let mut run = Transfer::new(vec![Zoom65v3.screen_up(), Zoom65v3.screen_down()]);
    run.record(acked());
    assert_eq!(run.finish(), None);
    let empty = Transfer::new(vec![]);
    assert_eq!(empty.pending(), None);
    assert_eq!(empty.finish(), Some(Ok(())));
}
