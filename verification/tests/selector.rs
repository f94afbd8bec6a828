use icondata::{AiIcon, BiIcon, CustomIcon, Icon, IconData, VsIcon, WiIcon};
use std::cmp::Ordering;

fn bare(data: &'static str) -> CustomIcon {
    CustomIcon {
        style: None,
        x: None,
        y: None,
        width: None,
        height: None,
        view_box: None,
        stroke_linecap: None,
        stroke_linejoin: None,
        stroke_width: None,
        stroke: None,
        fill: None,
        data,
    }
}

#[test]
fn widening_an_ai_icon_gives_the_ai_arm_and_its_baked_record() {
    let selector = Icon::from(AiIcon::AiFileImageTwotone);
    assert!(matches!(selector, Icon::Ai(AiIcon::AiFileImageTwotone)));
    let record = IconData::from(selector);
    assert_eq!(record, IconData::from(AiIcon::AiFileImageTwotone));
    assert_eq!(record.data, icondata_core::IconData::from(AiIcon::AiFileImageTwotone).data);
    assert!(record.data.starts_with("<path fill=\"#D9D9D9\" d=\"M534 352V136H232v752h560V394H576"));
    assert_eq!(record.view_box, Some("0 0 1024 1024"));
    assert_eq!(record.style, None);
    assert_eq!(record.fill, None);
}

#[test]
fn an_ai_selector_is_less_than_a_bi_selector() {
    let ai = Icon::from(AiIcon::AiZoomOutOutlined);
    let bi = Icon::from(BiIcon::Bi500px);
    assert!(ai < bi);
    assert!(bi > ai);
    assert_eq!(ai.partial_cmp(&bi), Some(Ordering::Less));
    assert_eq!(ai.cmp(&bi), Ordering::Less);
    assert_eq!(bi.partial_cmp(&ai), Some(Ordering::Greater));
    assert!(ai != bi);
}

#[test]
fn the_arm_decides_before_the_payload() {
    let last_of_ai = Icon::from(AiIcon::AiZoomOutOutlined);
    let first_of_wi = Icon::from(WiIcon::WiAlien);
    let first_of_vs = Icon::from(VsIcon::VsAccount);
    assert!(last_of_ai < first_of_vs);
    assert!(first_of_vs < first_of_wi);
    assert!(last_of_ai < first_of_wi);
    assert_eq!(first_of_wi.partial_cmp(&last_of_ai), Some(Ordering::Greater));
    assert_eq!(first_of_wi.cmp(&last_of_ai), Ordering::Greater);
}

#[test]
fn custom_comes_after_every_curated_arm() {
    let custom = Icon::from(bare(""));
    let wi = Icon::from(WiIcon::WiWindy);
    let ai = Icon::from(AiIcon::AiAccountBookFilled);
    assert_eq!(wi.partial_cmp(&custom), Some(Ordering::Less));
    assert_eq!(custom.partial_cmp(&wi), Some(Ordering::Greater));
    assert_eq!(ai.partial_cmp(&custom), Some(Ordering::Less));
    assert_eq!(wi.cmp(&custom), Ordering::Less);
    assert!(custom != wi);
    assert!(wi != custom);
}

#[test]
fn a_custom_icon_with_only_data_projects_to_that_data_alone() {
    let custom = bare("<path d=\"M0 0h1v1H0z\"/>");
    let selector = Icon::from(custom);
    assert!(matches!(selector, Icon::Custom(c) if c == custom));
    let record = IconData::from(selector);
    assert_eq!(record.data, "<path d=\"M0 0h1v1H0z\"/>");
    assert_eq!(record.style, None);
    assert_eq!(record.x, None);
    assert_eq!(record.y, None);
    assert_eq!(record.width, None);
    assert_eq!(record.height, None);
    assert_eq!(record.view_box, None);
    assert_eq!(record.stroke_linecap, None);
    assert_eq!(record.stroke_linejoin, None);
    assert_eq!(record.stroke_width, None);
    assert_eq!(record.stroke, None);
    assert_eq!(record.fill, None);
}

#[test]
fn a_custom_icon_projects_field_for_field() {
    let custom = CustomIcon {
        style: Some("color: red"),
        x: Some("1"),
        y: Some("2"),
        width: Some("3"),
        height: Some("4"),
        view_box: Some("0 0 3 4"),
        stroke_linecap: Some("round"),
        stroke_linejoin: Some("bevel"),
        stroke_width: Some("1.5"),
        stroke: Some("currentColor"),
        fill: Some(""),
        data: "<g/>",
    };
    let direct = IconData::from(custom);
    let through_selector = IconData::from(Icon::from(custom));
    assert_eq!(direct, through_selector);
    assert_eq!(direct.style, Some("color: red"));
    assert_eq!(direct.x, Some("1"));
    assert_eq!(direct.y, Some("2"));
    assert_eq!(direct.width, Some("3"));
    assert_eq!(direct.height, Some("4"));
    assert_eq!(direct.view_box, Some("0 0 3 4"));
    assert_eq!(direct.stroke_linecap, Some("round"));
    assert_eq!(direct.stroke_linejoin, Some("bevel"));
    assert_eq!(direct.stroke_width, Some("1.5"));
    assert_eq!(direct.stroke, Some("currentColor"));
    assert_eq!(direct.fill, Some(""));
    assert_eq!(direct.data, "<g/>");
}

#[test]
fn an_absent_attribute_differs_from_an_empty_one() {
    let absent = bare("<g/>");
    let mut empty = bare("<g/>");
    empty.fill = Some("");
    assert!(absent != empty);
    assert!(IconData::from(absent) != IconData::from(empty));
    assert_eq!(absent.partial_cmp(&empty), Some(Ordering::Less));
    assert_eq!(absent.cmp(&empty), Ordering::Less);
}

#[test]
fn projection_gives_the_same_record_each_time() {
    let selectors = [
        Icon::from(AiIcon::AiFileImageTwotone),
        Icon::from(VsIcon::VsZoomOut),
        Icon::from(bare("<path/>")),
    ];
    for s in selectors {
        let once = IconData::from(s);
        let again = IconData::from(s);
        assert_eq!(once, again);
        assert_eq!(once.data.as_bytes(), again.data.as_bytes());
        assert_eq!(once.view_box, again.view_box);
    }
}

#[test]
fn the_body_of_vs_blank_is_empty() {
    let record = IconData::from(Icon::from(VsIcon::VsBlank));
    assert_eq!(record.data, "");
    assert_eq!(IconData::from(VsIcon::VsBlank).data, "");
    assert_eq!(IconData::from(VsIcon::VsBlank), record);
    assert_eq!(record.view_box, Some("0 0 16 16"));
    assert_eq!(record.fill, Some("currentColor"));
    assert!(!IconData::from(Icon::from(VsIcon::VsBold)).data.is_empty());
}

#[test]
fn every_selector_equals_itself() {
    let selectors = [
        Icon::from(AiIcon::AiFileImageTwotone),
        Icon::from(BiIcon::Bi500px),
        Icon::from(bare("")),
        Icon::from(bare("<path/>")),
    ];
    for s in selectors {
        assert!(s == s);
        assert_eq!(s.partial_cmp(&s), Some(Ordering::Equal));
        assert_eq!(s.cmp(&s), Ordering::Equal);
    }
}

#[test]
fn the_order_written_by_hand_is_the_derived_one() {
    let mut styled = bare("<path/>");
    styled.style = Some("a");
    let mut wide = bare("<path/>");
    wide.width = Some("10");
    let mut wider = bare("<path/>");
    wider.width = Some("9");
    let selectors = [
        Icon::from(AiIcon::AiAccountBookFilled),
        Icon::from(AiIcon::AiFileImageTwotone),
        Icon::from(AiIcon::AiZoomOutOutlined),
        Icon::from(BiIcon::Bi500px),
        Icon::from(VsIcon::VsBlank),
        Icon::from(WiIcon::WiWindy),
        Icon::from(bare("")),
        Icon::from(bare("<path/>")),
        Icon::from(bare("<path/><path/>")),
        Icon::from(bare("\u{e9}")),
        Icon::from(bare("\u{10000}")),
        Icon::from(bare("\u{ffff}")),
        Icon::from(bare("z")),
        Icon::from(styled),
        Icon::from(wide),
        Icon::from(wider),
    ];
    for a in selectors {
        for b in selectors {
            assert_eq!(a.partial_cmp(&b), Some(a.cmp(&b)));
            assert_eq!(a == b, a.cmp(&b) == Ordering::Equal);
            assert_eq!(a.partial_cmp(&b), b.partial_cmp(&a).map(Ordering::reverse));
            for c in selectors {
                if a <= b && b <= c {
                    assert!(a <= c);
                }
                if a < b && b <= c {
                    assert!(a < c);
                }
            }
        }
    }
}

#[test]
fn custom_icons_are_ordered_field_by_field() {
    let mut first = bare("z");
    first.style = Some("a");
    first.x = Some("9");
    let mut second = bare("a");
    second.style = Some("a");
    second.x = Some("90");
    let mut third = bare("");
    third.style = Some("b");
    assert_eq!(first.partial_cmp(&second), Some(Ordering::Less));
    assert_eq!(second.partial_cmp(&third), Some(Ordering::Less));
    assert_eq!(first.partial_cmp(&third), Some(Ordering::Less));
    assert_eq!(third.partial_cmp(&first), Some(Ordering::Greater));
    assert_eq!(bare("a").partial_cmp(&bare("b")), Some(Ordering::Less));
    assert_eq!(bare("ab").partial_cmp(&bare("a")), Some(Ordering::Greater));
    assert_eq!(bare("a").partial_cmp(&bare("a")), Some(Ordering::Equal));
    assert_eq!(bare("\u{ffff}").partial_cmp(&bare("\u{10000}")), Some(Ordering::Less));
    assert!(bare("a") == bare("a"));
    assert!(bare("a") != bare("b"));
}
