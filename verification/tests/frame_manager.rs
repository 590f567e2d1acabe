use dplife::renderer::CommandList;
use dplife::renderer::Frame;
use dplife::renderer::FrameManager;
use dplife::renderer::FrameStart;

fn run_frame(manager: &mut FrameManager, completed: u64) -> (usize, u64) {
    let slot = match manager.start_new_frame(completed) {
        FrameStart::Ready { slot } => slot,
        FrameStart::Blocked { fence_value } => panic!("blocked on {}", fence_value),
    };
    let signal = manager.end_frame();
    (slot, signal)
}

#[test]
fn new_manager_has_signalled_nothing() {
    let manager = FrameManager::new(2);
    assert_eq!(manager.frame_count(), 2);
    assert_eq!(manager.next_fence_value(), 1);
    assert_eq!(manager.frame_index(), 1);
    assert_eq!(manager.fence_value(0), 0);
    assert_eq!(manager.fence_value(1), 0);
    assert!(!manager.is_started());
}

#[test]
fn two_slots_three_frames_with_instant_completion() {
    let mut manager = FrameManager::new(2);
    let mut completed = 0;

    let (slot, signal) = run_frame(&mut manager, completed);
    assert_eq!((slot, signal), (0, 1));
    assert_eq!(manager.fence_value(0), 1);
    assert_eq!(manager.fence_value(1), 0);
    completed = signal;

    let (slot, signal) = run_frame(&mut manager, completed);
    assert_eq!((slot, signal), (1, 2));
    assert_eq!(manager.fence_value(0), 1);
    assert_eq!(manager.fence_value(1), 2);
    completed = signal;

    let (slot, signal) = run_frame(&mut manager, completed);
    assert_eq!((slot, signal), (0, 3));
    assert_eq!(manager.fence_value(0), 3);
    assert_eq!(manager.fence_value(1), 2);
    assert_eq!(manager.next_fence_value(), 4);
}

#[test]
fn slow_device_blocks_the_third_frame_of_two_slots() {
    let mut manager = FrameManager::new(2);
    assert_eq!(run_frame(&mut manager, 0), (0, 1));
    assert_eq!(run_frame(&mut manager, 0), (1, 2));

    assert_eq!(manager.start_new_frame(0), FrameStart::Blocked { fence_value: 1 });
    assert!(!manager.is_started());
    assert_eq!(manager.frame_index(), 1);
    assert_eq!(manager.next_fence_value(), 3);
    assert_eq!(manager.fence_value(0), 1);
    assert_eq!(manager.fence_value(1), 2);

    assert_eq!(manager.start_new_frame(0), FrameStart::Blocked { fence_value: 1 });
    assert_eq!(manager.start_new_frame(1), FrameStart::Ready { slot: 0 });
    assert!(manager.is_started());
    assert_eq!(manager.frame_index(), 0);
    assert_eq!(manager.end_frame(), 3);
}

#[test]
fn three_slots_allow_two_outstanding_frames() {
    let mut manager = FrameManager::new(3);
    assert_eq!(run_frame(&mut manager, 0), (0, 1));
    assert_eq!(run_frame(&mut manager, 0), (1, 2));
    assert_eq!(run_frame(&mut manager, 0), (2, 3));
    assert_eq!(manager.start_new_frame(0), FrameStart::Blocked { fence_value: 1 });
    assert_eq!(run_frame(&mut manager, 1), (0, 4));
    assert_eq!(manager.start_new_frame(1), FrameStart::Blocked { fence_value: 2 });
    assert_eq!(manager.start_new_frame(3), FrameStart::Ready { slot: 1 });
}

#[test]
fn single_slot_waits_for_every_frame() {
    let mut manager = FrameManager::new(1);
    assert_eq!(manager.frame_index(), 0);
    assert_eq!(run_frame(&mut manager, 0), (0, 1));
    assert_eq!(manager.start_new_frame(0), FrameStart::Blocked { fence_value: 1 });
    assert_eq!(run_frame(&mut manager, 1), (0, 2));
}

#[test]
fn watermarks_strictly_increase() {
    let mut manager = FrameManager::new(3);
    let mut last = 0;
    let mut completed = 0;
    for frame in 0..20u64 {
        let (slot, signal) = run_frame(&mut manager, completed);
        assert_eq!(slot as u64, frame % 3);
        assert!(signal > last);
        assert_eq!(signal, frame + 1);
        assert_eq!(manager.fence_value(slot), signal);
        last = signal;
        completed = signal;
    }
}

#[test]
fn command_lists_are_created_then_recycled() {
    let mut manager = FrameManager::new(2);
    assert_eq!(manager.start_new_frame(0), FrameStart::Ready { slot: 0 });
    assert_eq!(manager.new_command_list(), CommandList { frame: 0, index: 0, recycled: false });
    assert_eq!(manager.new_command_list(), CommandList { frame: 0, index: 1, recycled: false });
    assert_eq!(manager.end_frame(), 1);

    assert_eq!(manager.start_new_frame(1), FrameStart::Ready { slot: 1 });
    assert_eq!(manager.new_command_list(), CommandList { frame: 1, index: 0, recycled: false });
    assert_eq!(manager.end_frame(), 2);

    assert_eq!(manager.start_new_frame(2), FrameStart::Ready { slot: 0 });
    assert_eq!(manager.new_command_list(), CommandList { frame: 0, index: 1, recycled: true });
    assert_eq!(manager.new_command_list(), CommandList { frame: 0, index: 0, recycled: true });
    assert_eq!(manager.new_command_list(), CommandList { frame: 0, index: 2, recycled: false });
    assert_eq!(manager.end_frame(), 3);
}

#[test]
fn shutdown_waits_for_every_unfinished_slot() {
    let mut manager = FrameManager::new(3);
    assert_eq!(manager.shutdown(0), Vec::<u64>::new());
    run_frame(&mut manager, 0);
    run_frame(&mut manager, 0);
    assert_eq!(manager.shutdown(0), vec![1, 2]);
    assert_eq!(manager.shutdown(1), vec![2]);
    assert_eq!(manager.shutdown(2), Vec::<u64>::new());
    run_frame(&mut manager, 2);
    run_frame(&mut manager, 2);
    assert_eq!(manager.shutdown(2), vec![4, 3]);
}

#[test]
fn frame_slot_goes_through_its_states() {
    let mut frame = Frame::new(5);
    assert_eq!(frame.index(), 5);
    assert_eq!(frame.fence_value(), 0);
    assert!(!frame.is_started());
    assert_eq!(frame.wait(0), None);

    assert_eq!(frame.start_new(0), None);
    assert!(frame.is_started());
    assert_eq!(frame.new_command_list(), CommandList { frame: 5, index: 0, recycled: false });
    frame.end(7);
    assert!(!frame.is_started());
    assert_eq!(frame.fence_value(), 7);

    assert_eq!(frame.wait(6), Some(7));
    assert_eq!(frame.wait(7), None);
    assert_eq!(frame.wait(8), None);
    assert_eq!(frame.start_new(6), Some(7));
    assert!(!frame.is_started());
    assert_eq!(frame.start_new(7), None);
    assert_eq!(frame.new_command_list(), CommandList { frame: 5, index: 0, recycled: true });
}
