use oled_status::{
    parse_brightness, Brightness, Component, Disk, DiskProbe, Drawer, Error, FsStat, History,
    Hostname, Load, LoadInput, MemStat, Memory, Scheduler, UpdateIndicator, UpdateInput, Uptime,
};

fn mounted_disk(size_blocks: u64, avail_blocks: u64, block_size: u64) -> Disk {
    let mut disk = Disk::new_from_path("/mnt/data").expect("path has a name");
    let parent = FsStat::new(100, 50, 4096, 1).expect("parent stat fits");
    let target = FsStat::new(size_blocks, avail_blocks, block_size, 2).expect("target stat fits");
    disk.update(DiskProbe::Stats(Ok(parent), Ok(target)))
        .expect("probe succeeds");
    disk
}

#[test]
fn history_keeps_most_recent_samples_newest_first() {
    let mut h = History::new(5);
    for v in 1..=8u16 {
        h.insert(v * 100);
    }
    assert_eq!(h.len(), 5);
    for j in 0..5usize {
        assert_eq!(h.get(j), (8 - j as u16) * 100);
    }
}

#[test]
fn history_below_capacity_keeps_everything() {
    let mut h = History::new(5);
    h.insert(10);
    h.insert(20);
    assert_eq!(h.len(), 2);
    assert_eq!(h.get(0), 20);
    assert_eq!(h.get(1), 10);
}

#[test]
fn disk_name_is_last_path_component() {
    let d = Disk::new_from_path("/mnt/disk1").expect("path has a name");
    assert_eq!(d.name, "disk1");
    assert_eq!(d.mount_point, "/mnt/disk1");
    assert!(!d.mounted);
    let bare = Disk::new_from_path("disk2").expect("bare name works");
    assert_eq!(bare.name, "disk2");
    let err = Disk::new_from_path("/mnt/").expect_err("trailing slash has no name");
    assert_eq!(err.message(), "Could not get name from mountpoint");
    Disk::new_from_path("/mnt/.").expect_err("a dot reference is no name");
    Disk::new_from_path("/mnt/..").expect_err("a parent reference is no name");
    let dotted = Disk::new_from_path("/mnt/.hidden").expect("dotfiles are fine");
    assert_eq!(dotted.name, ".hidden");
}

#[test]
fn equal_filesystem_identity_means_not_mounted() {
    assert!(!Disk::is_mounted(5, 5));
    assert!(Disk::is_mounted(5, 7));

    let mut disk = Disk::new_from_path("/mnt/data").expect("path has a name");
    let parent = FsStat::new(100, 50, 4096, 9).unwrap();
    let target = FsStat::new(200, 60, 4096, 9).unwrap();
    disk.update(DiskProbe::Stats(Ok(parent), Ok(target)))
        .expect("probe itself succeeds");
    assert!(!disk.mounted);
}

#[test]
fn differing_filesystem_identity_means_mounted() {
    let disk = mounted_disk(1000, 400, 4096);
    assert!(disk.mounted);
    assert_eq!(disk.size, 1000 * 4096);
    assert_eq!(disk.available, 400 * 4096);
}

#[test]
fn unreadable_parent_is_an_error_not_a_result() {
    let mut disk = mounted_disk(1000, 400, 4096);
    let target = FsStat::new(1000, 400, 4096, 2).unwrap();
    let err = disk
        .update(DiskProbe::Stats(
            Err(Error::Errno(13)),
            Ok(target),
        ))
        .expect_err("a failed parent stat is an error");
    match err {
        Error::Errno(code) => assert_eq!(code, 13),
        other => panic!("unexpected error kind: {}", other.message()),
    }
    // The previous state is retained.
    assert!(disk.mounted);
    assert_eq!(disk.size, 1000 * 4096);
    assert_eq!(disk.available, 400 * 4096);
}

#[test]
fn missing_parent_is_an_error() {
    let mut disk = Disk::new_from_path("/mnt/data").expect("path has a name");
    let err = disk.update(DiskProbe::NoParent).expect_err("no parent");
    assert_eq!(err.message(), "Could not get parent of mountpoint");
    assert!(!disk.mounted);
}

#[test]
fn disk_bar_width_is_used_share_of_drawable_width() {
    let disk = mounted_disk(1_000_000_000, 400_000_000, 1000);
    assert_eq!(disk.size, 1_000_000_000_000);
    assert_eq!(disk.available, 400_000_000_000);
    // floor(59 * (1 - 400/1000)) = floor(35.4)
    assert_eq!(disk.bar_width(), 35);
}

#[test]
fn scheduler_updates_only_due_components() {
    let mut components = vec![
        Component::Uptime(Uptime::new()),
        Component::Memory(Memory::new().expect("memory panel")),
    ];
    let start: u64 = 1000;
    let mut sched = Scheduler::new(components.len(), start);
    // 20 seconds later the uptime panel (15 s cadence) is due and the memory
    // panel (60 s cadence) is not.
    let now = start + 20;
    let inputs = [
        UpdateInput::Uptime(Ok(90061)),
        UpdateInput::Memory(Ok(MemStat { total: 1000, free: 250 })),
    ];
    for (i, input) in inputs.into_iter().enumerate() {
        if sched.due(&components[i], i, now) {
            components[i].update(input).expect("update succeeds");
            sched.record(i, now);
        }
    }
    match &components[0] {
        Component::Uptime(u) => assert_eq!(u.display_string, "1d01h01m"),
        _ => unreachable!(),
    }
    match &components[1] {
        Component::Memory(m) => assert_eq!(m.graph.len(), 0),
        _ => unreachable!(),
    }
    assert_eq!(sched.stamp(0), now);
    assert_eq!(sched.stamp(1), start);
}

#[test]
fn uptime_label_renders_days_hours_minutes() {
    let mut u = Uptime::new();
    u.update(Ok(90061)).expect("reading delivered");
    assert_eq!(u.display_string, "1d01h01m");
    u.update(Ok(0)).expect("reading delivered");
    assert_eq!(u.display_string, "0d00h00m");
    u.update(Ok(123 * 86400 + 23 * 3600 + 59 * 60 + 59))
        .expect("reading delivered");
    assert_eq!(u.display_string, "123d23h59m");
}

#[test]
fn uptime_failure_keeps_previous_label() {
    let mut u = Uptime::new();
    u.update(Ok(90061)).expect("reading delivered");
    let err = u
        .update(Err(Error::Io("uptime source gone".to_string())))
        .expect_err("failure reported");
    assert_eq!(err.message(), "uptime source gone");
    assert_eq!(u.display_string, "1d01h01m");
}

#[test]
fn hostname_updates_only_until_cached() {
    let mut h = Hostname { hostname: None };
    assert!(h.should_update(0));
    h.update(Ok("box1".to_string())).expect("name delivered");
    assert_eq!(h.hostname.as_deref(), Some("box1"));
    assert!(!h.should_update(100000));
}

#[test]
fn hostname_render_without_name_falls_back_to_empty_slot() {
    let h = Hostname { hostname: None };
    let mut drawer = Drawer::new();
    h.render(&mut drawer.frame, 0, 0)
        .expect("render succeeds before the first update");
    assert!(drawer.frame.texts().is_empty());
}

#[test]
fn load_two_phase_sampler_collects_into_history() {
    let mut l = Load::new().expect("load panel");
    assert!(!l.measurement_in_flight);
    // Idle: next update after 60 s.
    assert!(!l.should_update(60));
    assert!(l.should_update(61));
    l.start_measurement(true).expect("sample begun");
    assert!(l.measurement_in_flight);
    // In flight: collect after 1 s.
    assert!(l.should_update(2));
    l.collect_measurement(Ok(375)).expect("sample collected");
    assert!(!l.measurement_in_flight);
    assert_eq!(l.graph.len(), 1);
    assert_eq!(l.graph.get(0), 375);
}

#[test]
fn load_collect_without_sample_is_an_error() {
    let mut l = Load::new().expect("load panel");
    let err = l
        .collect_measurement(Ok(500))
        .expect_err("nothing in flight");
    assert_eq!(err.message(), "No measurement active to collect");
    assert_eq!(l.graph.len(), 0);
}

#[test]
fn load_failed_collection_keeps_sample_in_flight() {
    let mut l = Load::new().expect("load panel");
    l.start_measurement(true).expect("sample begun");
    let err = l
        .collect_measurement(Err(Error::Message("collected too early".to_string())))
        .expect_err("failure reported");
    assert_eq!(err.message(), "collected too early");
    assert!(l.measurement_in_flight);
    assert_eq!(l.graph.len(), 0);
}

#[test]
fn memory_update_stores_used_share_in_thousandths() {
    let mut m = Memory::new().expect("memory panel");
    m.update(Ok(MemStat { total: 1000, free: 250 }))
        .expect("reading delivered");
    assert_eq!(m.graph.len(), 1);
    assert_eq!(m.graph.get(0), 750);
    let err = m
        .update(Err(Error::Errno(12)))
        .expect_err("failure reported");
    match err {
        Error::Errno(code) => assert_eq!(code, 12),
        other => panic!("unexpected error kind: {}", other.message()),
    }
    assert_eq!(m.graph.len(), 1);
}

#[test]
fn indicator_never_asks_to_update() {
    let u = UpdateIndicator {};
    assert!(!u.should_update(0));
    assert!(!u.should_update(u64::MAX));
}

#[test]
fn indicator_alternates_between_two_glyphs() {
    let u = UpdateIndicator {};
    let mut even = Drawer::new();
    u.render(&mut even.frame, 0).expect("render succeeds");
    assert!(even.frame.pixel(62, 125));
    assert!(even.frame.pixel(62, 127));
    assert!(!even.frame.pixel(61, 126));
    let mut odd = Drawer::new();
    u.render(&mut odd.frame, 1).expect("render succeeds");
    assert!(odd.frame.pixel(61, 126));
    assert!(odd.frame.pixel(63, 126));
    assert!(!odd.frame.pixel(62, 125));
}

#[test]
fn parse_brightness_accepts_level_names_case_folded() {
    assert_eq!(parse_brightness("brightest").unwrap(), Brightness::Brightest);
    assert_eq!(parse_brightness("Bright").unwrap(), Brightness::Bright);
    assert_eq!(parse_brightness("NORMAL").unwrap(), Brightness::Normal);
    assert_eq!(parse_brightness("dim").unwrap(), Brightness::Dim);
    assert_eq!(parse_brightness("Dimmest").unwrap(), Brightness::Dimmest);
}

#[test]
fn parse_brightness_rejects_unknown_words() {
    let err = parse_brightness("glowing").expect_err("unknown word");
    assert_eq!(err.message(), "glowing is not a known brightness");
}

#[test]
fn error_kinds_carry_their_payload() {
    assert_eq!(Error::Display("bus stalled".to_string()).message(), "bus stalled");
    assert_eq!(Error::Io("device gone".to_string()).message(), "device gone");
    assert_eq!(Error::Errno(-2).message(), "-2");
    assert_eq!(Error::Message("plain words".to_string()).message(), "plain words");
}

#[test]
fn draw_is_idempotent_for_fixed_state_and_tick() {
    let mut l = Load::new().expect("load panel");
    l.start_measurement(true).expect("sample begun");
    l.collect_measurement(Ok(500)).expect("sample collected");
    let components = vec![
        Component::Hostname(Hostname { hostname: Some("box1".to_string()) }),
        Component::Uptime(Uptime::new()),
        Component::Disk(mounted_disk(1_000_000_000, 400_000_000, 1000)),
        Component::Load(l),
        Component::UpdateIndicator(UpdateIndicator {}),
    ];
    let tick: u64 = 4242;
    let mut first = Drawer::new();
    first.draw(tick, &components).expect("draw succeeds");
    let mut second = Drawer::new();
    second.draw(tick, &components).expect("draw succeeds");
    for y in 0..128usize {
        for x in 0..64usize {
            assert_eq!(first.frame.pixel(x, y), second.frame.pixel(x, y));
        }
    }
    let t1 = first.frame.texts();
    let t2 = second.frame.texts();
    assert_eq!(t1.len(), t2.len());
    for (a, b) in t1.iter().zip(t2.iter()) {
        assert_eq!(a.x, b.x);
        assert_eq!(a.y, b.y);
        assert_eq!(a.text, b.text);
    }
}

#[test]
fn three_component_scenario_composes_expected_frame() {
    let mut uptime = Uptime::new();
    uptime.update(Ok(90061)).expect("reading delivered");
    let components = vec![
        Component::Hostname(Hostname { hostname: Some("box1".to_string()) }),
        Component::Disk(mounted_disk(1_000_000_000, 400_000_000, 1000)),
        Component::Uptime(uptime),
    ];
    let mut drawer = Drawer::new();
    // Tick 0: no burn-in offset, so slot origins are (0, 0), (0, 11), (0, 22).
    drawer.draw(0, &components).expect("draw succeeds");

    let texts = drawer.frame.texts();
    assert_eq!(texts.len(), 3);
    assert_eq!(texts[0].text, "box1");
    assert_eq!((texts[0].x, texts[0].y), (0, 0));
    // The capacity label 1TB is centered over the bar.
    assert_eq!(texts[1].text, "1TB");
    assert_eq!((texts[1].x, texts[1].y), ((59 - 3 * 6) / 2, 11));
    // The uptime label of 90061 seconds.
    assert_eq!(texts[2].text, "1d01h01m");
    assert_eq!((texts[2].x, texts[2].y), (0, 22));

    // The usage bar sits on row 5 of the disk's slot; its filled width is
    // floor(59 * (1 - 400/1000)) = 35, plus the right border column at 59.
    let bar_y = 11 + 5;
    for x in 0..=35usize {
        assert!(drawer.frame.pixel(x, bar_y), "bar pixel {} should be lit", x);
    }
    for x in 36..59usize {
        assert!(!drawer.frame.pixel(x, bar_y), "pixel {} should be dark", x);
    }
    assert!(drawer.frame.pixel(59, bar_y), "right border should be lit");
    // Border verticals span rows 2 ..= 8 of the slot.
    assert!(drawer.frame.pixel(0, 11 + 2));
    assert!(drawer.frame.pixel(0, 11 + 8));
    assert!(drawer.frame.pixel(59, 11 + 2));
    assert!(drawer.frame.pixel(59, 11 + 8));
}

#[test]
fn unmounted_disk_renders_placeholder_not_a_bar() {
    let disk = Disk::new_from_path("/mnt/gone").expect("path has a name");
    let components = vec![Component::Disk(disk)];
    let mut drawer = Drawer::new();
    drawer.draw(0, &components).expect("draw succeeds");
    let texts = drawer.frame.texts();
    assert_eq!(texts.len(), 1);
    assert_eq!(texts[0].text, "-/-");
    assert_eq!((texts[0].x, texts[0].y), ((59 - 3 * 6) / 2, 0));
    for x in 0..64usize {
        assert!(!drawer.frame.pixel(x, 5), "no bar for an unmounted disk");
    }
}

#[test]
fn burn_in_offset_shifts_whole_frame() {
    let components = vec![Component::Hostname(Hostname {
        hostname: Some("box1".to_string()),
    })];
    let mut drawer = Drawer::new();
    // tick 34: x offset (34 / 17) % 5 = 2, y offset (34 / 11) % 5 = 3.
    drawer.draw(34, &components).expect("draw succeeds");
    let texts = drawer.frame.texts();
    assert_eq!((texts[0].x, texts[0].y), (2, 3));
}

#[test]
fn draw_succeeds_before_any_update() {
    // Freshly constructed components render placeholders, never errors.
    let components = vec![
        Component::Uptime(Uptime::new()),
        Component::Hostname(Hostname { hostname: None }),
    ];
    let mut drawer = Drawer::new();
    drawer.draw(0, &components).expect("placeholders render cleanly");
    // The uptime panel shows its (empty) label; the hostname panel shows
    // nothing at all until a name arrives.
    assert_eq!(drawer.frame.texts().len(), 1);
    assert_eq!(drawer.frame.texts()[0].text, "");
}
