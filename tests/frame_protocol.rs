use ecocide::frame::{
    FenceState, FrameAction, FrameEngine, FrameError, FrameEvent, FrameStage, FrameSync,
};

fn safe(sync: FrameSync) -> bool {
    sync.fence != FenceState::Unsignaled && !sync.image_available && !sync.render_finished
}

fn draw_once(engine: &mut FrameEngine, image_index: u32, suboptimal: bool) -> Vec<FrameAction> {
    let events = [
        FrameEvent::DrawRequested,
        FrameEvent::FenceSignaled,
        FrameEvent::FenceReset,
        FrameEvent::ImageAcquired { image_index, suboptimal },
        FrameEvent::Recorded,
        FrameEvent::Submitted,
        FrameEvent::Presented,
    ];
    events.iter().map(|e| engine.step(*e)).collect()
}

#[test]
fn fence_starts_signaled() {
    let mut engine = FrameEngine::new(3, 3);
    assert!(engine.is_ready());
    assert_eq!(engine.sync().fence, FenceState::Signaled);
    assert_eq!(engine.step(FrameEvent::DrawRequested), FrameAction::WaitFence);
    assert_eq!(engine.sync().fence, FenceState::Signaled);
}

#[test]
fn three_draws_in_a_row() {
    let mut engine = FrameEngine::new(3, 2904);
    for (n, index) in [0u32, 1, 2].iter().enumerate() {
        let actions = draw_once(&mut engine, *index, n == 1);
        assert_eq!(
            actions,
            vec![
                FrameAction::WaitFence,
                FrameAction::ResetFence,
                FrameAction::AcquireImage,
                FrameAction::Record { image_index: *index, vertex_count: 2904 },
                FrameAction::Submit,
                FrameAction::Present { image_index: *index },
                FrameAction::FrameDone,
            ]
        );
        assert_eq!(engine.stage(), FrameStage::Idle);
        assert!(safe(engine.sync()));
        assert!(engine.is_ready());
        assert_eq!(engine.sync().fence, FenceState::Pending);
    }
}

#[test]
fn fence_timeout_is_fatal() {
    let mut engine = FrameEngine::new(2, 3);
    engine.step(FrameEvent::DrawRequested);
    let a = engine.step(FrameEvent::FenceTimedOut);
    assert_eq!(a, FrameAction::Abort { error: FrameError::FenceTimeout });
    assert_eq!(engine.stage(), FrameStage::Failed { error: FrameError::FenceTimeout });
    assert_eq!(
        engine.step(FrameEvent::DrawRequested),
        FrameAction::Abort { error: FrameError::FenceTimeout }
    );
    assert!(!engine.is_ready());
}

#[test]
fn acquired_index_out_of_range() {
    let mut engine = FrameEngine::new(2, 3);
    engine.step(FrameEvent::DrawRequested);
    engine.step(FrameEvent::FenceSignaled);
    engine.step(FrameEvent::FenceReset);
    let a = engine.step(FrameEvent::ImageAcquired { image_index: 2, suboptimal: false });
    assert_eq!(a, FrameAction::Abort { error: FrameError::ImageIndexOutOfRange });
}

#[test]
fn acquire_submit_present_failures() {
    let mut engine = FrameEngine::new(2, 3);
    engine.step(FrameEvent::DrawRequested);
    engine.step(FrameEvent::FenceSignaled);
    engine.step(FrameEvent::FenceReset);
    assert_eq!(
        engine.step(FrameEvent::AcquireFailed),
        FrameAction::Abort { error: FrameError::AcquireFailed }
    );

    let mut engine = FrameEngine::new(2, 3);
    let mut actions = Vec::new();
    for e in [
        FrameEvent::DrawRequested,
        FrameEvent::FenceSignaled,
        FrameEvent::FenceReset,
        FrameEvent::ImageAcquired { image_index: 1, suboptimal: false },
        FrameEvent::Recorded,
        FrameEvent::SubmitFailed,
    ] {
        actions.push(engine.step(e));
    }
    assert_eq!(actions[5], FrameAction::Abort { error: FrameError::SubmitFailed });

    let mut engine = FrameEngine::new(2, 3);
    let actions = draw_once(&mut engine, 0, false);
    assert_eq!(actions[6], FrameAction::FrameDone);
    for e in [
        FrameEvent::DrawRequested,
        FrameEvent::FenceSignaled,
        FrameEvent::FenceReset,
        FrameEvent::ImageAcquired { image_index: 1, suboptimal: false },
        FrameEvent::Recorded,
        FrameEvent::Submitted,
    ] {
        engine.step(e);
    }
    assert_eq!(
        engine.step(FrameEvent::PresentFailed),
        FrameAction::Abort { error: FrameError::PresentFailed }
    );
}

#[test]
fn unexpected_event_is_fatal() {
    let mut engine = FrameEngine::new(2, 3);
    assert_eq!(
        engine.step(FrameEvent::Presented),
        FrameAction::Abort { error: FrameError::UnexpectedEvent }
    );
}
