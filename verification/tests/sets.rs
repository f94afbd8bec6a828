use icondata::{Icon, IconData};
use std::cmp::Ordering;

fn same_record(ours: IconData, theirs: icondata_core::IconData) -> bool {
    ours.style == theirs.style
        && ours.x == theirs.x
        && ours.y == theirs.y
        && ours.width == theirs.width
        && ours.height == theirs.height
        && ours.view_box == theirs.view_box
        && ours.stroke_linecap == theirs.stroke_linecap
        && ours.stroke_linejoin == theirs.stroke_linejoin
        && ours.stroke_width == theirs.stroke_width
        && ours.stroke == theirs.stroke
        && ours.fill == theirs.fill
        && ours.data == theirs.data
}

#[test]
fn ai_widening_keeps_the_icon_and_its_record() {
    let first = icondata::AiIcon::AiAccountBookFilled;
    let last = icondata::AiIcon::AiZoomOutOutlined;
    assert!(matches!(Icon::from(first), Icon::Ai(v) if v == first));
    assert!(matches!(Icon::from(last), Icon::Ai(v) if v == last));
    assert!(same_record(IconData::from(Icon::from(first)), icondata_core::IconData::from(first)));
    assert!(same_record(IconData::from(Icon::from(last)), icondata_core::IconData::from(last)));
    assert!(same_record(IconData::from(first), icondata_core::IconData::from(first)));
    assert_eq!(IconData::from(first), IconData::from(Icon::from(first)));
    assert_eq!(IconData::from(last), IconData::from(Icon::from(last)));
    assert_ne!(IconData::from(Icon::from(first)), IconData::from(Icon::from(last)));
    assert_eq!(IconData::from(Icon::from(first)), IconData::from(Icon::from(first)));
    assert!(!IconData::from(Icon::from(first)).data.is_empty());
    assert!(!IconData::from(Icon::from(last)).data.is_empty());
}

#[test]
fn ai_icons_are_ordered_as_declared() {
    let first = Icon::from(icondata::AiIcon::AiAccountBookFilled);
    let last = Icon::from(icondata::AiIcon::AiZoomOutOutlined);
    assert_eq!(first.partial_cmp(&last), Some(Ordering::Less));
    assert_eq!(last.partial_cmp(&first), Some(Ordering::Greater));
    assert_eq!(first.partial_cmp(&first), Some(Ordering::Equal));
    assert_eq!(first.cmp(&last), Ordering::Less);
    assert_eq!(last.cmp(&first), Ordering::Greater);
    assert!(first < last);
    assert!(first == first);
    assert!(last == last);
    assert!(first != last);
}

#[test]
fn bi_widening_keeps_the_icon_and_its_record() {
    let first = icondata::BiIcon::Bi500px;
    let last = icondata::BiIcon::BiZoomOutSolid;
    assert!(matches!(Icon::from(first), Icon::Bi(v) if v == first));
    assert!(matches!(Icon::from(last), Icon::Bi(v) if v == last));
    assert!(same_record(IconData::from(Icon::from(first)), icondata_core::IconData::from(first)));
    assert!(same_record(IconData::from(Icon::from(last)), icondata_core::IconData::from(last)));
    assert!(same_record(IconData::from(first), icondata_core::IconData::from(first)));
    assert_eq!(IconData::from(first), IconData::from(Icon::from(first)));
    assert_eq!(IconData::from(last), IconData::from(Icon::from(last)));
    assert_ne!(IconData::from(Icon::from(first)), IconData::from(Icon::from(last)));
    assert_eq!(IconData::from(Icon::from(first)), IconData::from(Icon::from(first)));
    assert!(!IconData::from(Icon::from(first)).data.is_empty());
    assert!(!IconData::from(Icon::from(last)).data.is_empty());
}

#[test]
fn bi_icons_are_ordered_as_declared() {
    let first = Icon::from(icondata::BiIcon::Bi500px);
    let last = Icon::from(icondata::BiIcon::BiZoomOutSolid);
    assert_eq!(first.partial_cmp(&last), Some(Ordering::Less));
    assert_eq!(last.partial_cmp(&first), Some(Ordering::Greater));
    assert_eq!(first.partial_cmp(&first), Some(Ordering::Equal));
    assert_eq!(first.cmp(&last), Ordering::Less);
    assert_eq!(last.cmp(&first), Ordering::Greater);
    assert!(first < last);
    assert!(first == first);
    assert!(last == last);
    assert!(first != last);
}

#[test]
fn bs_widening_keeps_the_icon_and_its_record() {
    let first = icondata::BsIcon::Bs0Circle;
    let last = icondata::BsIcon::BsZoomOut;
    assert!(matches!(Icon::from(first), Icon::Bs(v) if v == first));
    assert!(matches!(Icon::from(last), Icon::Bs(v) if v == last));
    assert!(same_record(IconData::from(Icon::from(first)), icondata_core::IconData::from(first)));
    assert!(same_record(IconData::from(Icon::from(last)), icondata_core::IconData::from(last)));
    assert!(same_record(IconData::from(first), icondata_core::IconData::from(first)));
    assert_eq!(IconData::from(first), IconData::from(Icon::from(first)));
    assert_eq!(IconData::from(last), IconData::from(Icon::from(last)));
    assert_ne!(IconData::from(Icon::from(first)), IconData::from(Icon::from(last)));
    assert_eq!(IconData::from(Icon::from(first)), IconData::from(Icon::from(first)));
    assert!(!IconData::from(Icon::from(first)).data.is_empty());
    assert!(!IconData::from(Icon::from(last)).data.is_empty());
}

#[test]
fn bs_icons_are_ordered_as_declared() {
    let first = Icon::from(icondata::BsIcon::Bs0Circle);
    let last = Icon::from(icondata::BsIcon::BsZoomOut);
    assert_eq!(first.partial_cmp(&last), Some(Ordering::Less));
    assert_eq!(last.partial_cmp(&first), Some(Ordering::Greater));
    assert_eq!(first.partial_cmp(&first), Some(Ordering::Equal));
    assert_eq!(first.cmp(&last), Ordering::Less);
    assert_eq!(last.cmp(&first), Ordering::Greater);
    assert!(first < last);
    assert!(first == first);
    assert!(last == last);
    assert!(first != last);
}

#[test]
fn cg_widening_keeps_the_icon_and_its_record() {
    let first = icondata::CgIcon::CgAbstract;
    let last = icondata::CgIcon::CgZoomOut;
    assert!(matches!(Icon::from(first), Icon::Cg(v) if v == first));
    assert!(matches!(Icon::from(last), Icon::Cg(v) if v == last));
    assert!(same_record(IconData::from(Icon::from(first)), icondata_core::IconData::from(first)));
    assert!(same_record(IconData::from(Icon::from(last)), icondata_core::IconData::from(last)));
    assert!(same_record(IconData::from(first), icondata_core::IconData::from(first)));
    assert_eq!(IconData::from(first), IconData::from(Icon::from(first)));
    assert_eq!(IconData::from(last), IconData::from(Icon::from(last)));
    assert_ne!(IconData::from(Icon::from(first)), IconData::from(Icon::from(last)));
    assert_eq!(IconData::from(Icon::from(first)), IconData::from(Icon::from(first)));
    assert!(!IconData::from(Icon::from(first)).data.is_empty());
    assert!(!IconData::from(Icon::from(last)).data.is_empty());
}

#[test]
fn cg_icons_are_ordered_as_declared() {
    let first = Icon::from(icondata::CgIcon::CgAbstract);
    let last = Icon::from(icondata::CgIcon::CgZoomOut);
    assert_eq!(first.partial_cmp(&last), Some(Ordering::Less));
    assert_eq!(last.partial_cmp(&first), Some(Ordering::Greater));
    assert_eq!(first.partial_cmp(&first), Some(Ordering::Equal));
    assert_eq!(first.cmp(&last), Ordering::Less);
    assert_eq!(last.cmp(&first), Ordering::Greater);
    assert!(first < last);
    assert!(first == first);
    assert!(last == last);
    assert!(first != last);
}

#[test]
fn ch_widening_keeps_the_icon_and_its_record() {
    let first = icondata::ChIcon::ChAnchor;
    let last = icondata::ChIcon::ChZoomOut;
    assert!(matches!(Icon::from(first), Icon::Ch(v) if v == first));
    assert!(matches!(Icon::from(last), Icon::Ch(v) if v == last));
    assert!(same_record(IconData::from(Icon::from(first)), icondata_core::IconData::from(first)));
    assert!(same_record(IconData::from(Icon::from(last)), icondata_core::IconData::from(last)));
    assert!(same_record(IconData::from(first), icondata_core::IconData::from(first)));
    assert_eq!(IconData::from(first), IconData::from(Icon::from(first)));
    assert_eq!(IconData::from(last), IconData::from(Icon::from(last)));
    assert_ne!(IconData::from(Icon::from(first)), IconData::from(Icon::from(last)));
    assert_eq!(IconData::from(Icon::from(first)), IconData::from(Icon::from(first)));
    assert!(!IconData::from(Icon::from(first)).data.is_empty());
    assert!(!IconData::from(Icon::from(last)).data.is_empty());
}

#[test]
fn ch_icons_are_ordered_as_declared() {
    let first = Icon::from(icondata::ChIcon::ChAnchor);
    let last = Icon::from(icondata::ChIcon::ChZoomOut);
    assert_eq!(first.partial_cmp(&last), Some(Ordering::Less));
    assert_eq!(last.partial_cmp(&first), Some(Ordering::Greater));
    assert_eq!(first.partial_cmp(&first), Some(Ordering::Equal));
    assert_eq!(first.cmp(&last), Ordering::Less);
    assert_eq!(last.cmp(&first), Ordering::Greater);
    assert!(first < last);
    assert!(first == first);
    assert!(last == last);
    assert!(first != last);
}

#[test]
fn fa_widening_keeps_the_icon_and_its_record() {
    let first = icondata::FaIcon::Fa0Solid;
    let last = icondata::FaIcon::FaZhihuBrands;
    assert!(matches!(Icon::from(first), Icon::Fa(v) if v == first));
    assert!(matches!(Icon::from(last), Icon::Fa(v) if v == last));
    assert!(same_record(IconData::from(Icon::from(first)), icondata_core::IconData::from(first)));
    assert!(same_record(IconData::from(Icon::from(last)), icondata_core::IconData::from(last)));
    assert!(same_record(IconData::from(first), icondata_core::IconData::from(first)));
    assert_eq!(IconData::from(first), IconData::from(Icon::from(first)));
    assert_eq!(IconData::from(last), IconData::from(Icon::from(last)));
    assert_ne!(IconData::from(Icon::from(first)), IconData::from(Icon::from(last)));
    assert_eq!(IconData::from(Icon::from(first)), IconData::from(Icon::from(first)));
    assert!(!IconData::from(Icon::from(first)).data.is_empty());
    assert!(!IconData::from(Icon::from(last)).data.is_empty());
}

#[test]
fn fa_icons_are_ordered_as_declared() {
    let first = Icon::from(icondata::FaIcon::Fa0Solid);
    let last = Icon::from(icondata::FaIcon::FaZhihuBrands);
    assert_eq!(first.partial_cmp(&last), Some(Ordering::Less));
    assert_eq!(last.partial_cmp(&first), Some(Ordering::Greater));
    assert_eq!(first.partial_cmp(&first), Some(Ordering::Equal));
    assert_eq!(first.cmp(&last), Ordering::Less);
    assert_eq!(last.cmp(&first), Ordering::Greater);
    assert!(first < last);
    assert!(first == first);
    assert!(last == last);
    assert!(first != last);
}

#[test]
fn fi_widening_keeps_the_icon_and_its_record() {
    let first = icondata::FiIcon::FiActivity;
    let last = icondata::FiIcon::FiZoomOut;
    assert!(matches!(Icon::from(first), Icon::Fi(v) if v == first));
    assert!(matches!(Icon::from(last), Icon::Fi(v) if v == last));
    assert!(same_record(IconData::from(Icon::from(first)), icondata_core::IconData::from(first)));
    assert!(same_record(IconData::from(Icon::from(last)), icondata_core::IconData::from(last)));
    assert!(same_record(IconData::from(first), icondata_core::IconData::from(first)));
    assert_eq!(IconData::from(first), IconData::from(Icon::from(first)));
    assert_eq!(IconData::from(last), IconData::from(Icon::from(last)));
    assert_ne!(IconData::from(Icon::from(first)), IconData::from(Icon::from(last)));
    assert_eq!(IconData::from(Icon::from(first)), IconData::from(Icon::from(first)));
    assert!(!IconData::from(Icon::from(first)).data.is_empty());
    assert!(!IconData::from(Icon::from(last)).data.is_empty());
}

#[test]
fn fi_icons_are_ordered_as_declared() {
    let first = Icon::from(icondata::FiIcon::FiActivity);
    let last = Icon::from(icondata::FiIcon::FiZoomOut);
    assert_eq!(first.partial_cmp(&last), Some(Ordering::Less));
    assert_eq!(last.partial_cmp(&first), Some(Ordering::Greater));
    assert_eq!(first.partial_cmp(&first), Some(Ordering::Equal));
    assert_eq!(first.cmp(&last), Ordering::Less);
    assert_eq!(last.cmp(&first), Ordering::Greater);
    assert!(first < last);
    assert!(first == first);
    assert!(last == last);
    assert!(first != last);
}

#[test]
fn hi_widening_keeps_the_icon_and_its_record() {
    let first = icondata::HiIcon::HiAcademicCapOutlineLg;
    let last = icondata::HiIcon::HiXMarkSolidMd;
    assert!(matches!(Icon::from(first), Icon::Hi(v) if v == first));
    assert!(matches!(Icon::from(last), Icon::Hi(v) if v == last));
    assert!(same_record(IconData::from(Icon::from(first)), icondata_core::IconData::from(first)));
    assert!(same_record(IconData::from(Icon::from(last)), icondata_core::IconData::from(last)));
    assert!(same_record(IconData::from(first), icondata_core::IconData::from(first)));
    assert_eq!(IconData::from(first), IconData::from(Icon::from(first)));
    assert_eq!(IconData::from(last), IconData::from(Icon::from(last)));
    assert_ne!(IconData::from(Icon::from(first)), IconData::from(Icon::from(last)));
    assert_eq!(IconData::from(Icon::from(first)), IconData::from(Icon::from(first)));
    assert!(!IconData::from(Icon::from(first)).data.is_empty());
    assert!(!IconData::from(Icon::from(last)).data.is_empty());
}

#[test]
fn hi_icons_are_ordered_as_declared() {
    let first = Icon::from(icondata::HiIcon::HiAcademicCapOutlineLg);
    let last = Icon::from(icondata::HiIcon::HiXMarkSolidMd);
    assert_eq!(first.partial_cmp(&last), Some(Ordering::Less));
    assert_eq!(last.partial_cmp(&first), Some(Ordering::Greater));
    assert_eq!(first.partial_cmp(&first), Some(Ordering::Equal));
    assert_eq!(first.cmp(&last), Ordering::Less);
    assert_eq!(last.cmp(&first), Ordering::Greater);
    assert!(first < last);
    assert!(first == first);
    assert!(last == last);
    assert!(first != last);
}

#[test]
fn im_widening_keeps_the_icon_and_its_record() {
    let first = icondata::ImIcon::Im500px;
    let last = icondata::ImIcon::ImZoomOut;
    assert!(matches!(Icon::from(first), Icon::Im(v) if v == first));
    assert!(matches!(Icon::from(last), Icon::Im(v) if v == last));
    assert!(same_record(IconData::from(Icon::from(first)), icondata_core::IconData::from(first)));
    assert!(same_record(IconData::from(Icon::from(last)), icondata_core::IconData::from(last)));
    assert!(same_record(IconData::from(first), icondata_core::IconData::from(first)));
    assert_eq!(IconData::from(first), IconData::from(Icon::from(first)));
    assert_eq!(IconData::from(last), IconData::from(Icon::from(last)));
    assert_ne!(IconData::from(Icon::from(first)), IconData::from(Icon::from(last)));
    assert_eq!(IconData::from(Icon::from(first)), IconData::from(Icon::from(first)));
    assert!(!IconData::from(Icon::from(first)).data.is_empty());
    assert!(!IconData::from(Icon::from(last)).data.is_empty());
}

#[test]
fn im_icons_are_ordered_as_declared() {
    let first = Icon::from(icondata::ImIcon::Im500px);
    let last = Icon::from(icondata::ImIcon::ImZoomOut);
    assert_eq!(first.partial_cmp(&last), Some(Ordering::Less));
    assert_eq!(last.partial_cmp(&first), Some(Ordering::Greater));
    assert_eq!(first.partial_cmp(&first), Some(Ordering::Equal));
    assert_eq!(first.cmp(&last), Ordering::Less);
    assert_eq!(last.cmp(&first), Ordering::Greater);
    assert!(first < last);
    assert!(first == first);
    assert!(last == last);
    assert!(first != last);
}

#[test]
fn io_widening_keeps_the_icon_and_its_record() {
    let first = icondata::IoIcon::IoAccessibility;
    let last = icondata::IoIcon::IoWomanSharp;
    assert!(matches!(Icon::from(first), Icon::Io(v) if v == first));
    assert!(matches!(Icon::from(last), Icon::Io(v) if v == last));
    assert!(same_record(IconData::from(Icon::from(first)), icondata_core::IconData::from(first)));
    assert!(same_record(IconData::from(Icon::from(last)), icondata_core::IconData::from(last)));
    assert!(same_record(IconData::from(first), icondata_core::IconData::from(first)));
    assert_eq!(IconData::from(first), IconData::from(Icon::from(first)));
    assert_eq!(IconData::from(last), IconData::from(Icon::from(last)));
    assert_ne!(IconData::from(Icon::from(first)), IconData::from(Icon::from(last)));
    assert_eq!(IconData::from(Icon::from(first)), IconData::from(Icon::from(first)));
    assert!(!IconData::from(Icon::from(first)).data.is_empty());
    assert!(!IconData::from(Icon::from(last)).data.is_empty());
}

#[test]
fn io_icons_are_ordered_as_declared() {
    let first = Icon::from(icondata::IoIcon::IoAccessibility);
    let last = Icon::from(icondata::IoIcon::IoWomanSharp);
    assert_eq!(first.partial_cmp(&last), Some(Ordering::Less));
    assert_eq!(last.partial_cmp(&first), Some(Ordering::Greater));
    assert_eq!(first.partial_cmp(&first), Some(Ordering::Equal));
    assert_eq!(first.cmp(&last), Ordering::Less);
    assert_eq!(last.cmp(&first), Ordering::Greater);
    assert!(first < last);
    assert!(first == first);
    assert!(last == last);
    assert!(first != last);
}

#[test]
fn lu_widening_keeps_the_icon_and_its_record() {
    let first = icondata::LuIcon::LuAccessibility;
    let last = icondata::LuIcon::LuZoomOut;
    assert!(matches!(Icon::from(first), Icon::Lu(v) if v == first));
    assert!(matches!(Icon::from(last), Icon::Lu(v) if v == last));
    assert!(same_record(IconData::from(Icon::from(first)), icondata_core::IconData::from(first)));
    assert!(same_record(IconData::from(Icon::from(last)), icondata_core::IconData::from(last)));
    assert!(same_record(IconData::from(first), icondata_core::IconData::from(first)));
    assert_eq!(IconData::from(first), IconData::from(Icon::from(first)));
    assert_eq!(IconData::from(last), IconData::from(Icon::from(last)));
    assert_ne!(IconData::from(Icon::from(first)), IconData::from(Icon::from(last)));
    assert_eq!(IconData::from(Icon::from(first)), IconData::from(Icon::from(first)));
    assert!(!IconData::from(Icon::from(first)).data.is_empty());
    assert!(!IconData::from(Icon::from(last)).data.is_empty());
}

#[test]
fn lu_icons_are_ordered_as_declared() {
    let first = Icon::from(icondata::LuIcon::LuAccessibility);
    let last = Icon::from(icondata::LuIcon::LuZoomOut);
    assert_eq!(first.partial_cmp(&last), Some(Ordering::Less));
    assert_eq!(last.partial_cmp(&first), Some(Ordering::Greater));
    assert_eq!(first.partial_cmp(&first), Some(Ordering::Equal));
    assert_eq!(first.cmp(&last), Ordering::Less);
    assert_eq!(last.cmp(&first), Ordering::Greater);
    assert!(first < last);
    assert!(first == first);
    assert!(last == last);
    assert!(first != last);
}

#[test]
fn oc_widening_keeps_the_icon_and_its_record() {
    let first = icondata::OcIcon::OcAccessibilityInsetSm;
    let last = icondata::OcIcon::OcZoomOutSm;
    assert!(matches!(Icon::from(first), Icon::Oc(v) if v == first));
    assert!(matches!(Icon::from(last), Icon::Oc(v) if v == last));
    assert!(same_record(IconData::from(Icon::from(first)), icondata_core::IconData::from(first)));
    assert!(same_record(IconData::from(Icon::from(last)), icondata_core::IconData::from(last)));
    assert!(same_record(IconData::from(first), icondata_core::IconData::from(first)));
    assert_eq!(IconData::from(first), IconData::from(Icon::from(first)));
    assert_eq!(IconData::from(last), IconData::from(Icon::from(last)));
    assert_ne!(IconData::from(Icon::from(first)), IconData::from(Icon::from(last)));
    assert_eq!(IconData::from(Icon::from(first)), IconData::from(Icon::from(first)));
    assert!(!IconData::from(Icon::from(first)).data.is_empty());
    assert!(!IconData::from(Icon::from(last)).data.is_empty());
}

#[test]
fn oc_icons_are_ordered_as_declared() {
    let first = Icon::from(icondata::OcIcon::OcAccessibilityInsetSm);
    let last = Icon::from(icondata::OcIcon::OcZoomOutSm);
    assert_eq!(first.partial_cmp(&last), Some(Ordering::Less));
    assert_eq!(last.partial_cmp(&first), Some(Ordering::Greater));
    assert_eq!(first.partial_cmp(&first), Some(Ordering::Equal));
    assert_eq!(first.cmp(&last), Ordering::Less);
    assert_eq!(last.cmp(&first), Ordering::Greater);
    assert!(first < last);
    assert!(first == first);
    assert!(last == last);
    assert!(first != last);
}

#[test]
fn ri_widening_keeps_the_icon_and_its_record() {
    let first = icondata::RiIcon::Ri24HoursFinanceFill;
    let last = icondata::RiIcon::RiZzzHealthMedicalLine;
    assert!(matches!(Icon::from(first), Icon::Ri(v) if v == first));
    assert!(matches!(Icon::from(last), Icon::Ri(v) if v == last));
    assert!(same_record(IconData::from(Icon::from(first)), icondata_core::IconData::from(first)));
    assert!(same_record(IconData::from(Icon::from(last)), icondata_core::IconData::from(last)));
    assert!(same_record(IconData::from(first), icondata_core::IconData::from(first)));
    assert_eq!(IconData::from(first), IconData::from(Icon::from(first)));
    assert_eq!(IconData::from(last), IconData::from(Icon::from(last)));
    assert_ne!(IconData::from(Icon::from(first)), IconData::from(Icon::from(last)));
    assert_eq!(IconData::from(Icon::from(first)), IconData::from(Icon::from(first)));
    assert!(!IconData::from(Icon::from(first)).data.is_empty());
    assert!(!IconData::from(Icon::from(last)).data.is_empty());
}

#[test]
fn ri_icons_are_ordered_as_declared() {
    let first = Icon::from(icondata::RiIcon::Ri24HoursFinanceFill);
    let last = Icon::from(icondata::RiIcon::RiZzzHealthMedicalLine);
    assert_eq!(first.partial_cmp(&last), Some(Ordering::Less));
    assert_eq!(last.partial_cmp(&first), Some(Ordering::Greater));
    assert_eq!(first.partial_cmp(&first), Some(Ordering::Equal));
    assert_eq!(first.cmp(&last), Ordering::Less);
    assert_eq!(last.cmp(&first), Ordering::Greater);
    assert!(first < last);
    assert!(first == first);
    assert!(last == last);
    assert!(first != last);
}

#[test]
fn si_widening_keeps_the_icon_and_its_record() {
    let first = icondata::SiIcon::Si1001tracklists;
    let last = icondata::SiIcon::SiZyte;
    assert!(matches!(Icon::from(first), Icon::Si(v) if v == first));
    assert!(matches!(Icon::from(last), Icon::Si(v) if v == last));
    assert!(same_record(IconData::from(Icon::from(first)), icondata_core::IconData::from(first)));
    assert!(same_record(IconData::from(Icon::from(last)), icondata_core::IconData::from(last)));
    assert!(same_record(IconData::from(first), icondata_core::IconData::from(first)));
    assert_eq!(IconData::from(first), IconData::from(Icon::from(first)));
    assert_eq!(IconData::from(last), IconData::from(Icon::from(last)));
    assert_ne!(IconData::from(Icon::from(first)), IconData::from(Icon::from(last)));
    assert_eq!(IconData::from(Icon::from(first)), IconData::from(Icon::from(first)));
    assert!(!IconData::from(Icon::from(first)).data.is_empty());
    assert!(!IconData::from(Icon::from(last)).data.is_empty());
}

#[test]
fn si_icons_are_ordered_as_declared() {
    let first = Icon::from(icondata::SiIcon::Si1001tracklists);
    let last = Icon::from(icondata::SiIcon::SiZyte);
    assert_eq!(first.partial_cmp(&last), Some(Ordering::Less));
    assert_eq!(last.partial_cmp(&first), Some(Ordering::Greater));
    assert_eq!(first.partial_cmp(&first), Some(Ordering::Equal));
    assert_eq!(first.cmp(&last), Ordering::Less);
    assert_eq!(last.cmp(&first), Ordering::Greater);
    assert!(first < last);
    assert!(first == first);
    assert!(last == last);
    assert!(first != last);
}

#[test]
fn tb_widening_keeps_the_icon_and_its_record() {
    let first = icondata::TbIcon::Tb123;
    let last = icondata::TbIcon::TbZzzOff;
    assert!(matches!(Icon::from(first), Icon::Tb(v) if v == first));
    assert!(matches!(Icon::from(last), Icon::Tb(v) if v == last));
    assert!(same_record(IconData::from(Icon::from(first)), icondata_core::IconData::from(first)));
    assert!(same_record(IconData::from(Icon::from(last)), icondata_core::IconData::from(last)));
    assert!(same_record(IconData::from(first), icondata_core::IconData::from(first)));
    assert_eq!(IconData::from(first), IconData::from(Icon::from(first)));
    assert_eq!(IconData::from(last), IconData::from(Icon::from(last)));
    assert_ne!(IconData::from(Icon::from(first)), IconData::from(Icon::from(last)));
    assert_eq!(IconData::from(Icon::from(first)), IconData::from(Icon::from(first)));
    assert!(!IconData::from(Icon::from(first)).data.is_empty());
    assert!(!IconData::from(Icon::from(last)).data.is_empty());
}

#[test]
fn tb_icons_are_ordered_as_declared() {
    let first = Icon::from(icondata::TbIcon::Tb123);
    let last = Icon::from(icondata::TbIcon::TbZzzOff);
    assert_eq!(first.partial_cmp(&last), Some(Ordering::Less));
    assert_eq!(last.partial_cmp(&first), Some(Ordering::Greater));
    assert_eq!(first.partial_cmp(&first), Some(Ordering::Equal));
    assert_eq!(first.cmp(&last), Ordering::Less);
    assert_eq!(last.cmp(&first), Ordering::Greater);
    assert!(first < last);
    assert!(first == first);
    assert!(last == last);
    assert!(first != last);
}

#[test]
fn ti_widening_keeps_the_icon_and_its_record() {
    let first = icondata::TiIcon::TiAdjustBrightness;
    let last = icondata::TiIcon::TiZoomOutline;
    assert!(matches!(Icon::from(first), Icon::Ti(v) if v == first));
    assert!(matches!(Icon::from(last), Icon::Ti(v) if v == last));
    assert!(same_record(IconData::from(Icon::from(first)), icondata_core::IconData::from(first)));
    assert!(same_record(IconData::from(Icon::from(last)), icondata_core::IconData::from(last)));
    assert!(same_record(IconData::from(first), icondata_core::IconData::from(first)));
    assert_eq!(IconData::from(first), IconData::from(Icon::from(first)));
    assert_eq!(IconData::from(last), IconData::from(Icon::from(last)));
    assert_ne!(IconData::from(Icon::from(first)), IconData::from(Icon::from(last)));
    assert_eq!(IconData::from(Icon::from(first)), IconData::from(Icon::from(first)));
    assert!(!IconData::from(Icon::from(first)).data.is_empty());
    assert!(!IconData::from(Icon::from(last)).data.is_empty());
}

#[test]
fn ti_icons_are_ordered_as_declared() {
    let first = Icon::from(icondata::TiIcon::TiAdjustBrightness);
    let last = Icon::from(icondata::TiIcon::TiZoomOutline);
    assert_eq!(first.partial_cmp(&last), Some(Ordering::Less));
    assert_eq!(last.partial_cmp(&first), Some(Ordering::Greater));
    assert_eq!(first.partial_cmp(&first), Some(Ordering::Equal));
    assert_eq!(first.cmp(&last), Ordering::Less);
    assert_eq!(last.cmp(&first), Ordering::Greater);
    assert!(first < last);
    assert!(first == first);
    assert!(last == last);
    assert!(first != last);
}

#[test]
fn vs_widening_keeps_the_icon_and_its_record() {
    let first = icondata::VsIcon::VsAccount;
    let last = icondata::VsIcon::VsZoomOut;
    assert!(matches!(Icon::from(first), Icon::Vs(v) if v == first));
    assert!(matches!(Icon::from(last), Icon::Vs(v) if v == last));
    assert!(same_record(IconData::from(Icon::from(first)), icondata_core::IconData::from(first)));
    assert!(same_record(IconData::from(Icon::from(last)), icondata_core::IconData::from(last)));
    assert!(same_record(IconData::from(first), icondata_core::IconData::from(first)));
    assert_eq!(IconData::from(first), IconData::from(Icon::from(first)));
    assert_eq!(IconData::from(last), IconData::from(Icon::from(last)));
    assert_ne!(IconData::from(Icon::from(first)), IconData::from(Icon::from(last)));
    assert_eq!(IconData::from(Icon::from(first)), IconData::from(Icon::from(first)));
    assert!(!IconData::from(Icon::from(first)).data.is_empty());
    assert!(!IconData::from(Icon::from(last)).data.is_empty());
}

#[test]
fn vs_icons_are_ordered_as_declared() {
    let first = Icon::from(icondata::VsIcon::VsAccount);
    let last = Icon::from(icondata::VsIcon::VsZoomOut);
    assert_eq!(first.partial_cmp(&last), Some(Ordering::Less));
    assert_eq!(last.partial_cmp(&first), Some(Ordering::Greater));
    assert_eq!(first.partial_cmp(&first), Some(Ordering::Equal));
    assert_eq!(first.cmp(&last), Ordering::Less);
    assert_eq!(last.cmp(&first), Ordering::Greater);
    assert!(first < last);
    assert!(first == first);
    assert!(last == last);
    assert!(first != last);
}

#[test]
fn wi_widening_keeps_the_icon_and_its_record() {
    let first = icondata::WiIcon::WiAlien;
    let last = icondata::WiIcon::WiWindy;
    assert!(matches!(Icon::from(first), Icon::Wi(v) if v == first));
    assert!(matches!(Icon::from(last), Icon::Wi(v) if v == last));
    assert!(same_record(IconData::from(Icon::from(first)), icondata_core::IconData::from(first)));
    assert!(same_record(IconData::from(Icon::from(last)), icondata_core::IconData::from(last)));
    assert!(same_record(IconData::from(first), icondata_core::IconData::from(first)));
    assert_eq!(IconData::from(first), IconData::from(Icon::from(first)));
    assert_eq!(IconData::from(last), IconData::from(Icon::from(last)));
    assert_ne!(IconData::from(Icon::from(first)), IconData::from(Icon::from(last)));
    assert_eq!(IconData::from(Icon::from(first)), IconData::from(Icon::from(first)));
    assert!(!IconData::from(Icon::from(first)).data.is_empty());
    assert!(!IconData::from(Icon::from(last)).data.is_empty());
}

#[test]
fn wi_icons_are_ordered_as_declared() {
    let first = Icon::from(icondata::WiIcon::WiAlien);
    let last = Icon::from(icondata::WiIcon::WiWindy);
    assert_eq!(first.partial_cmp(&last), Some(Ordering::Less));
    assert_eq!(last.partial_cmp(&first), Some(Ordering::Greater));
    assert_eq!(first.partial_cmp(&first), Some(Ordering::Equal));
    assert_eq!(first.cmp(&last), Ordering::Less);
    assert_eq!(last.cmp(&first), Ordering::Greater);
    assert!(first < last);
    assert!(first == first);
    assert!(last == last);
    assert!(first != last);
}

