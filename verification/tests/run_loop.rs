use engine::run::RunReport;
use engine::run_loop::RunCursor;
use engine::run_writer::{CadenceError, FrameCountError, FrameLedger, OutputCadence};

#[test]
fn a_run_saves_step_zero_and_every_multiple_of_its_cadence() {
    let cadence = OutputCadence::new(10, 4).unwrap();
    assert_eq!(cadence.frame_count(), 3);
    let saved: Vec<u64> = (0..=12).filter(|step| cadence.writes_at_step(*step)).collect();
    assert_eq!(saved, vec![0, 4, 8]);
    assert_eq!(OutputCadence::new(10, 0), Err(CadenceError::CadenceIsZero));
    assert_eq!(OutputCadence::new(0, 1).unwrap().frame_count(), 1);
}

#[test]
fn a_driven_run_hands_out_exactly_the_frames_its_header_promises() {
    for (total, every) in [(10_u64, 4_u64), (12, 4), (0, 1), (7, 1), (5, 100)] {
        let cadence = OutputCadence::new(total, every).unwrap();
        let mut cursor = RunCursor::new(cadence);
        let mut ledger = FrameLedger::new(cadence.frame_count());
        let mut saved_at = Vec::new();
        loop {
            if cursor.take_frame() {
                // Asking twice between two steps hands the frame out once.
                assert!(!cursor.take_frame());
                ledger.check_room().unwrap();
                ledger.record_frame();
                saved_at.push(cursor.steps_taken());
            }
            if !cursor.take_step() {
                break;
            }
        }
        assert!(cursor.is_finished());
        assert_eq!(cursor.steps_taken(), total);
        assert_eq!(cursor.frames_taken(), cadence.frame_count());
        assert_eq!(ledger.check_complete(), Ok(()));
        let expected: Vec<u64> = (0..=total).filter(|step| step % every == 0).collect();
        assert_eq!(saved_at, expected);
    }
}

#[test]
fn a_writer_refuses_frames_past_its_promise_and_a_close_short_of_it() {
    let mut ledger = FrameLedger::new(2);
    assert_eq!(
        ledger.check_complete(),
        Err(FrameCountError::MissingFrames { promised: 2, written: 0 })
    );
    ledger.check_room().unwrap();
    ledger.record_frame();
    ledger.check_room().unwrap();
    ledger.record_frame();
    assert_eq!(ledger.written(), 2);
    assert_eq!(
        ledger.check_room(),
        Err(FrameCountError::TooManyFrames { promised: 2 })
    );
    assert_eq!(ledger.written(), 2);
    assert_eq!(ledger.check_complete(), Ok(()));
}

#[test]
fn a_report_says_what_the_run_did() {
    let report = RunReport::new(17_520, 731);
    assert_eq!(report.steps_taken(), 17_520);
    assert_eq!(report.frames_written(), 731);
}
