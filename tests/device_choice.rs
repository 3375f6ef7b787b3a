use ecocide::device::{find_queue_family, select_queue_family, QueueChoice, QueueFamilyInfo};

fn fam(queue_flags: u32, presents: bool) -> QueueFamilyInfo {
    QueueFamilyInfo { queue_flags, presents }
}

#[test]
fn first_family_with_graphics_and_present() {
    let families = vec![fam(0b100, true), fam(0b011, false), fam(0b011, true), fam(0b001, true)];
    assert_eq!(find_queue_family(&families), Some(2));
}

#[test]
fn first_suitable_device_wins() {
    let devices = vec![
        vec![fam(0b010, true), fam(0b001, false)],
        vec![fam(0b001, false), fam(0b111, true)],
        vec![fam(0b001, true)],
    ];
    assert_eq!(
        select_queue_family(&devices),
        Some(QueueChoice { device_index: 1, family_index: 1 })
    );
}

#[test]
fn no_suitable_device() {
    let devices = vec![vec![fam(0b010, true)], vec![], vec![fam(0b001, false)]];
    assert_eq!(select_queue_family(&devices), None);
    assert_eq!(select_queue_family(&vec![]), None);
}
