use volume_mirror::adapters::{post_default_device_changed, post_volume_changed, DataFlow, DeviceRole};
use volume_mirror::coordinator::Event;
use volume_mirror::mapping::VolumeSample;
use volume_mirror::queue::{drain_events, new_queue};

#[test]
fn events_are_delivered_in_enqueue_order() {
    let mut q = new_queue();
    let a = VolumeSample { level: 1000, muted: false };
    let b = VolumeSample { level: 2000, muted: true };
    post_volume_changed(&mut q, a);
    post_volume_changed(&mut q, b);
    let evts = drain_events(&mut q);
    assert_eq!(
        evts,
        vec![Event::VolumeChanged { sample: a }, Event::VolumeChanged { sample: b }]
    );
}

#[test]
fn mixed_events_keep_arrival_order() {
    let mut q = new_queue();
    let s = VolumeSample { level: 500, muted: false };
    post_volume_changed(&mut q, s);
    post_default_device_changed(&mut q, DataFlow::Render, DeviceRole::Multimedia);
    post_volume_changed(&mut q, s);
    let evts = drain_events(&mut q);
    assert_eq!(
        evts,
        vec![
            Event::VolumeChanged { sample: s },
            Event::DefaultDeviceChanged,
            Event::VolumeChanged { sample: s },
        ]
    );
}

#[test]
fn other_roles_and_flows_post_nothing() {
    let mut q = new_queue();
    post_default_device_changed(&mut q, DataFlow::Capture, DeviceRole::Multimedia);
    post_default_device_changed(&mut q, DataFlow::Render, DeviceRole::Console);
    post_default_device_changed(&mut q, DataFlow::Render, DeviceRole::Communications);
    post_default_device_changed(&mut q, DataFlow::All, DeviceRole::Multimedia);
    let evts = drain_events(&mut q);
    assert!(evts.is_empty());
}

#[test]
fn draining_empties_the_queue() {
    let mut q = new_queue();
    post_default_device_changed(&mut q, DataFlow::Render, DeviceRole::Multimedia);
    let first = drain_events(&mut q);
    assert_eq!(first, vec![Event::DefaultDeviceChanged]);
    let second = drain_events(&mut q);
    assert!(second.is_empty());
}
