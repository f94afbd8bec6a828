//! The selector: any icon of any curated set, or one written by hand.

use crate::custom::{record_order, CustomIcon};
use crate::order::{int_order, then_order};
use crate::record::{IconData, RecordView};
use crate::sets::ai::{ai_compare, ai_rank, ai_record};
use crate::sets::bi::{bi_compare, bi_rank, bi_record};
use crate::sets::bs::{bs_compare, bs_rank, bs_record};
use crate::sets::cg::{cg_compare, cg_rank, cg_record};
use crate::sets::ch::{ch_compare, ch_rank, ch_record};
use crate::sets::fa::{fa_compare, fa_rank, fa_record};
use crate::sets::fi::{fi_compare, fi_rank, fi_record};
use crate::sets::hi::{hi_compare, hi_rank, hi_record};
use crate::sets::im::{im_compare, im_rank, im_record};
use crate::sets::io::{io_compare, io_rank, io_record};
use crate::sets::lu::{lu_compare, lu_rank, lu_record};
use crate::sets::oc::{oc_compare, oc_rank, oc_record};
use crate::sets::ri::{ri_compare, ri_rank, ri_record};
use crate::sets::si::{si_compare, si_rank, si_record};
use crate::sets::tb::{tb_compare, tb_rank, tb_record};
use crate::sets::ti::{ti_compare, ti_rank, ti_record};
use crate::sets::vs::{vs_blank_rank, vs_compare, vs_rank, vs_record};
use crate::sets::wi::{wi_compare, wi_rank, wi_record};
use icondata_ai::AiIcon;
use icondata_bi::BiIcon;
use icondata_bs::BsIcon;
use icondata_cg::CgIcon;
use icondata_ch::ChIcon;
use icondata_fa::FaIcon;
use icondata_fi::FiIcon;
use icondata_hi::HiIcon;
use icondata_im::ImIcon;
use icondata_io::IoIcon;
use icondata_lu::LuIcon;
use icondata_oc::OcIcon;
use icondata_ri::RiIcon;
use icondata_si::SiIcon;
use icondata_tb::TbIcon;
use icondata_ti::TiIcon;
use icondata_vs::VsIcon;
use icondata_wi::WiIcon;
use std::cmp::Ordering;
use vstd::prelude::*;

verus! {

/// Selects one icon: an icon of one of the curated sets, by the set's own
/// enumeration, or a custom icon. Every value has exactly one arm.
///
/// More sets may be added later, so a `match` on a selector needs a default
/// branch.
#[non_exhaustive]
#[derive(Debug, Clone, Copy, Eq, Ord)]
pub enum Icon {
    /// An icon of the set Ant Design Icons.
    Ai(AiIcon),
    /// An icon of the set BoxIcons.
    Bi(BiIcon),
    /// An icon of the set Bootstrap Icons.
    Bs(BsIcon),
    /// An icon of the set css.gg.
    Cg(CgIcon),
    /// An icon of the set Charm.
    Ch(ChIcon),
    /// An icon of the set Font Awesome.
    Fa(FaIcon),
    /// An icon of the set Feather.
    Fi(FiIcon),
    /// An icon of the set Heroicons.
    Hi(HiIcon),
    /// An icon of the set IcoMoon Free.
    Im(ImIcon),
    /// An icon of the set Ionicons.
    Io(IoIcon),
    /// An icon of the set Lucide.
    Lu(LuIcon),
    /// An icon of the set Github Octicons.
    Oc(OcIcon),
    /// An icon of the set Remix Icon.
    Ri(RiIcon),
    /// An icon of the set Simple Icons.
    Si(SiIcon),
    /// An icon of the set Tabler Icons.
    Tb(TbIcon),
    /// An icon of the set Typicons.
    Ti(TiIcon),
    /// An icon of the set VS Code Icons.
    Vs(VsIcon),
    /// An icon of the set Weather Icons.
    Wi(WiIcon),
    /// An icon written by hand.
    Custom(CustomIcon),
}

/// What a selector stands for in contracts.
pub ghost enum IconView {
    /// An icon of a curated set: `set` is the position of the set in the
    /// catalogue, which is also the position of its arm in `Icon` (0 for
    /// `Ai`, 17 for `Wi`); `rank` is the position of the icon in the set's
    /// enumeration.
    Curated { set: int, rank: int },
    /// An icon written by hand, by what its fields say.
    Custom(RecordView),
}

impl View for Icon {
    type V = IconView;

    open spec fn view(&self) -> IconView {
        match *self {
            Icon::Ai(v) => IconView::Curated { set: 0, rank: ai_rank(v) },
            Icon::Bi(v) => IconView::Curated { set: 1, rank: bi_rank(v) },
            Icon::Bs(v) => IconView::Curated { set: 2, rank: bs_rank(v) },
            Icon::Cg(v) => IconView::Curated { set: 3, rank: cg_rank(v) },
            Icon::Ch(v) => IconView::Curated { set: 4, rank: ch_rank(v) },
            Icon::Fa(v) => IconView::Curated { set: 5, rank: fa_rank(v) },
            Icon::Fi(v) => IconView::Curated { set: 6, rank: fi_rank(v) },
            Icon::Hi(v) => IconView::Curated { set: 7, rank: hi_rank(v) },
            Icon::Im(v) => IconView::Curated { set: 8, rank: im_rank(v) },
            Icon::Io(v) => IconView::Curated { set: 9, rank: io_rank(v) },
            Icon::Lu(v) => IconView::Curated { set: 10, rank: lu_rank(v) },
            Icon::Oc(v) => IconView::Curated { set: 11, rank: oc_rank(v) },
            Icon::Ri(v) => IconView::Curated { set: 12, rank: ri_rank(v) },
            Icon::Si(v) => IconView::Curated { set: 13, rank: si_rank(v) },
            Icon::Tb(v) => IconView::Curated { set: 14, rank: tb_rank(v) },
            Icon::Ti(v) => IconView::Curated { set: 15, rank: ti_rank(v) },
            Icon::Vs(v) => IconView::Curated { set: 16, rank: vs_rank(v) },
            Icon::Wi(v) => IconView::Curated { set: 17, rank: wi_rank(v) },
            Icon::Custom(c) => IconView::Custom(c@),
        }
    }
}

/// Order of two selectors: first by arm, in the order of the arms'
/// declaration, with `Custom` last; then, within one arm, by payload: two
/// icons of one set by their positions in it, two custom icons by
/// `record_order`.
pub open spec fn icon_order(a: IconView, b: IconView) -> Ordering {
    match (a, b) {
        (IconView::Curated { set: s, rank: r }, IconView::Curated { set: t, rank: u }) => then_order(
            int_order(s, t),
            int_order(r, u),
        ),
        (IconView::Curated { .. }, IconView::Custom(_)) => Ordering::Less,
        (IconView::Custom(_), IconView::Curated { .. }) => Ordering::Greater,
        (IconView::Custom(x), IconView::Custom(y)) => record_order(x, y),
    }
}

impl Icon {
    /// The position of the value's arm in the declaration of `Icon`: the
    /// set's position for a curated icon, 18 for a custom one.
    pub open spec fn arm(self) -> int {
        match self@ {
            IconView::Curated { set, .. } => set,
            IconView::Custom(_) => 18,
        }
    }

    /// Whether the value selects an icon of a curated set.
    pub open spec fn is_curated(self) -> bool {
        self@ is Curated
    }

    /// Whether the value selects `VsBlank`, the one curated icon whose body
    /// is empty.
    pub open spec fn is_blank(self) -> bool {
        self matches Icon::Vs(v) && vs_rank(v) == vs_blank_rank()
    }

    /// The render record of the selected icon: for a curated icon the record
    /// that its set holds for it, for a custom icon the copy of its fields.
    pub open spec fn record(self) -> IconData {
        match self {
            Icon::Ai(v) => ai_record(ai_rank(v)),
            Icon::Bi(v) => bi_record(bi_rank(v)),
            Icon::Bs(v) => bs_record(bs_rank(v)),
            Icon::Cg(v) => cg_record(cg_rank(v)),
            Icon::Ch(v) => ch_record(ch_rank(v)),
            Icon::Fa(v) => fa_record(fa_rank(v)),
            Icon::Fi(v) => fi_record(fi_rank(v)),
            Icon::Hi(v) => hi_record(hi_rank(v)),
            Icon::Im(v) => im_record(im_rank(v)),
            Icon::Io(v) => io_record(io_rank(v)),
            Icon::Lu(v) => lu_record(lu_rank(v)),
            Icon::Oc(v) => oc_record(oc_rank(v)),
            Icon::Ri(v) => ri_record(ri_rank(v)),
            Icon::Si(v) => si_record(si_rank(v)),
            Icon::Tb(v) => tb_record(tb_rank(v)),
            Icon::Ti(v) => ti_record(ti_rank(v)),
            Icon::Vs(v) => vs_record(vs_rank(v)),
            Icon::Wi(v) => wi_record(wi_rank(v)),
            Icon::Custom(c) => c.record(),
        }
    }

    fn arm_index(&self) -> (i: u8)
        ensures
            i == self.arm(),
    {
        match self {
            Icon::Ai(_) => 0,
            Icon::Bi(_) => 1,
            Icon::Bs(_) => 2,
            Icon::Cg(_) => 3,
            Icon::Ch(_) => 4,
            Icon::Fa(_) => 5,
            Icon::Fi(_) => 6,
            Icon::Hi(_) => 7,
            Icon::Im(_) => 8,
            Icon::Io(_) => 9,
            Icon::Lu(_) => 10,
            Icon::Oc(_) => 11,
            Icon::Ri(_) => 12,
            Icon::Si(_) => 13,
            Icon::Tb(_) => 14,
            Icon::Ti(_) => 15,
            Icon::Vs(_) => 16,
            Icon::Wi(_) => 17,
            Icon::Custom(_) => 18,
        }
    }
}

impl From<AiIcon> for Icon {
    /// Widens an `AiIcon` into the selector: the `Ai` arm around it.
    fn from(icon: AiIcon) -> (r: Icon)
        ensures
            r == Icon::Ai(icon),
    {
        Icon::Ai(icon)
    }
}

impl vstd::std_specs::convert::FromSpecImpl<AiIcon> for Icon {
    open spec fn obeys_from_spec() -> bool {
        true
    }

    open spec fn from_spec(icon: AiIcon) -> Icon {
        Icon::Ai(icon)
    }
}

impl From<BiIcon> for Icon {
    /// Widens a `BiIcon` into the selector: the `Bi` arm around it.
    fn from(icon: BiIcon) -> (r: Icon)
        ensures
            r == Icon::Bi(icon),
    {
        Icon::Bi(icon)
    }
}

impl vstd::std_specs::convert::FromSpecImpl<BiIcon> for Icon {
    open spec fn obeys_from_spec() -> bool {
        true
    }

    open spec fn from_spec(icon: BiIcon) -> Icon {
        Icon::Bi(icon)
    }
}

impl From<BsIcon> for Icon {
    /// Widens a `BsIcon` into the selector: the `Bs` arm around it.
    fn from(icon: BsIcon) -> (r: Icon)
        ensures
            r == Icon::Bs(icon),
    {
        Icon::Bs(icon)
    }
}

impl vstd::std_specs::convert::FromSpecImpl<BsIcon> for Icon {
    open spec fn obeys_from_spec() -> bool {
        true
    }

    open spec fn from_spec(icon: BsIcon) -> Icon {
        Icon::Bs(icon)
    }
}

impl From<CgIcon> for Icon {
    /// Widens a `CgIcon` into the selector: the `Cg` arm around it.
    fn from(icon: CgIcon) -> (r: Icon)
        ensures
            r == Icon::Cg(icon),
    {
        Icon::Cg(icon)
    }
}

impl vstd::std_specs::convert::FromSpecImpl<CgIcon> for Icon {
    open spec fn obeys_from_spec() -> bool {
        true
    }

    open spec fn from_spec(icon: CgIcon) -> Icon {
        Icon::Cg(icon)
    }
}

impl From<ChIcon> for Icon {
    /// Widens a `ChIcon` into the selector: the `Ch` arm around it.
    fn from(icon: ChIcon) -> (r: Icon)
        ensures
            r == Icon::Ch(icon),
    {
        Icon::Ch(icon)
    }
}

impl vstd::std_specs::convert::FromSpecImpl<ChIcon> for Icon {
    open spec fn obeys_from_spec() -> bool {
        true
    }

    open spec fn from_spec(icon: ChIcon) -> Icon {
        Icon::Ch(icon)
    }
}

impl From<FaIcon> for Icon {
    /// Widens a `FaIcon` into the selector: the `Fa` arm around it.
    fn from(icon: FaIcon) -> (r: Icon)
        ensures
            r == Icon::Fa(icon),
    {
        Icon::Fa(icon)
    }
}

impl vstd::std_specs::convert::FromSpecImpl<FaIcon> for Icon {
    open spec fn obeys_from_spec() -> bool {
        true
    }

    open spec fn from_spec(icon: FaIcon) -> Icon {
        Icon::Fa(icon)
    }
}

impl From<FiIcon> for Icon {
    /// Widens a `FiIcon` into the selector: the `Fi` arm around it.
    fn from(icon: FiIcon) -> (r: Icon)
        ensures
            r == Icon::Fi(icon),
    {
        Icon::Fi(icon)
    }
}

impl vstd::std_specs::convert::FromSpecImpl<FiIcon> for Icon {
    open spec fn obeys_from_spec() -> bool {
        true
    }

    open spec fn from_spec(icon: FiIcon) -> Icon {
        Icon::Fi(icon)
    }
}

impl From<HiIcon> for Icon {
    /// Widens a `HiIcon` into the selector: the `Hi` arm around it.
    fn from(icon: HiIcon) -> (r: Icon)
        ensures
            r == Icon::Hi(icon),
    {
        Icon::Hi(icon)
    }
}

impl vstd::std_specs::convert::FromSpecImpl<HiIcon> for Icon {
    open spec fn obeys_from_spec() -> bool {
        true
    }

    open spec fn from_spec(icon: HiIcon) -> Icon {
        Icon::Hi(icon)
    }
}

impl From<ImIcon> for Icon {
    /// Widens an `ImIcon` into the selector: the `Im` arm around it.
    fn from(icon: ImIcon) -> (r: Icon)
        ensures
            r == Icon::Im(icon),
    {
        Icon::Im(icon)
    }
}

impl vstd::std_specs::convert::FromSpecImpl<ImIcon> for Icon {
    open spec fn obeys_from_spec() -> bool {
        true
    }

    open spec fn from_spec(icon: ImIcon) -> Icon {
        Icon::Im(icon)
    }
}

impl From<IoIcon> for Icon {
    /// Widens an `IoIcon` into the selector: the `Io` arm around it.
    fn from(icon: IoIcon) -> (r: Icon)
        ensures
            r == Icon::Io(icon),
    {
        Icon::Io(icon)
    }
}

impl vstd::std_specs::convert::FromSpecImpl<IoIcon> for Icon {
    open spec fn obeys_from_spec() -> bool {
        true
    }

    open spec fn from_spec(icon: IoIcon) -> Icon {
        Icon::Io(icon)
    }
}

impl From<LuIcon> for Icon {
    /// Widens a `LuIcon` into the selector: the `Lu` arm around it.
    fn from(icon: LuIcon) -> (r: Icon)
        ensures
            r == Icon::Lu(icon),
    {
        Icon::Lu(icon)
    }
}

impl vstd::std_specs::convert::FromSpecImpl<LuIcon> for Icon {
    open spec fn obeys_from_spec() -> bool {
        true
    }

    open spec fn from_spec(icon: LuIcon) -> Icon {
        Icon::Lu(icon)
    }
}

impl From<OcIcon> for Icon {
    /// Widens an `OcIcon` into the selector: the `Oc` arm around it.
    fn from(icon: OcIcon) -> (r: Icon)
        ensures
            r == Icon::Oc(icon),
    {
        Icon::Oc(icon)
    }
}

impl vstd::std_specs::convert::FromSpecImpl<OcIcon> for Icon {
    open spec fn obeys_from_spec() -> bool {
        true
    }

    open spec fn from_spec(icon: OcIcon) -> Icon {
        Icon::Oc(icon)
    }
}

impl From<RiIcon> for Icon {
    /// Widens a `RiIcon` into the selector: the `Ri` arm around it.
    fn from(icon: RiIcon) -> (r: Icon)
        ensures
            r == Icon::Ri(icon),
    {
        Icon::Ri(icon)
    }
}

impl vstd::std_specs::convert::FromSpecImpl<RiIcon> for Icon {
    open spec fn obeys_from_spec() -> bool {
        true
    }

    open spec fn from_spec(icon: RiIcon) -> Icon {
        Icon::Ri(icon)
    }
}

impl From<SiIcon> for Icon {
    /// Widens a `SiIcon` into the selector: the `Si` arm around it.
    fn from(icon: SiIcon) -> (r: Icon)
        ensures
            r == Icon::Si(icon),
    {
        Icon::Si(icon)
    }
}

impl vstd::std_specs::convert::FromSpecImpl<SiIcon> for Icon {
    open spec fn obeys_from_spec() -> bool {
        true
    }

    open spec fn from_spec(icon: SiIcon) -> Icon {
        Icon::Si(icon)
    }
}

impl From<TbIcon> for Icon {
    /// Widens a `TbIcon` into the selector: the `Tb` arm around it.
    fn from(icon: TbIcon) -> (r: Icon)
        ensures
            r == Icon::Tb(icon),
    {
        Icon::Tb(icon)
    }
}

impl vstd::std_specs::convert::FromSpecImpl<TbIcon> for Icon {
    open spec fn obeys_from_spec() -> bool {
        true
    }

    open spec fn from_spec(icon: TbIcon) -> Icon {
        Icon::Tb(icon)
    }
}

impl From<TiIcon> for Icon {
    /// Widens a `TiIcon` into the selector: the `Ti` arm around it.
    fn from(icon: TiIcon) -> (r: Icon)
        ensures
            r == Icon::Ti(icon),
    {
        Icon::Ti(icon)
    }
}

impl vstd::std_specs::convert::FromSpecImpl<TiIcon> for Icon {
    open spec fn obeys_from_spec() -> bool {
        true
    }

    open spec fn from_spec(icon: TiIcon) -> Icon {
        Icon::Ti(icon)
    }
}

impl From<VsIcon> for Icon {
    /// Widens a `VsIcon` into the selector: the `Vs` arm around it.
    fn from(icon: VsIcon) -> (r: Icon)
        ensures
            r == Icon::Vs(icon),
    {
        Icon::Vs(icon)
    }
}

impl vstd::std_specs::convert::FromSpecImpl<VsIcon> for Icon {
    open spec fn obeys_from_spec() -> bool {
        true
    }

    open spec fn from_spec(icon: VsIcon) -> Icon {
        Icon::Vs(icon)
    }
}

impl From<WiIcon> for Icon {
    /// Widens a `WiIcon` into the selector: the `Wi` arm around it.
    fn from(icon: WiIcon) -> (r: Icon)
        ensures
            r == Icon::Wi(icon),
    {
        Icon::Wi(icon)
    }
}

impl vstd::std_specs::convert::FromSpecImpl<WiIcon> for Icon {
    open spec fn obeys_from_spec() -> bool {
        true
    }

    open spec fn from_spec(icon: WiIcon) -> Icon {
        Icon::Wi(icon)
    }
}

impl From<CustomIcon> for Icon {
    /// Widens a custom icon into the selector: the `Custom` arm around it.
    fn from(icon: CustomIcon) -> (r: Icon)
        ensures
            r == Icon::Custom(icon),
    {
        Icon::Custom(icon)
    }
}

impl vstd::std_specs::convert::FromSpecImpl<CustomIcon> for Icon {
    open spec fn obeys_from_spec() -> bool {
        true
    }

    open spec fn from_spec(icon: CustomIcon) -> Icon {
        Icon::Custom(icon)
    }
}

impl From<Icon> for IconData {
    /// Projects a selector to its render record. Every selector has one: a
    /// curated icon the record of its set, a custom icon the copy of its
    /// fields. The body of a curated icon's record is never empty, but for
    /// `VsBlank`.
    fn from(icon: Icon) -> (r: IconData)
        ensures
            r == icon.record(),
            icon.is_curated() && !icon.is_blank() ==> r.data@.len() > 0,
    {
        match icon {
            Icon::Ai(v) => IconData::from(v),
            Icon::Bi(v) => IconData::from(v),
            Icon::Bs(v) => IconData::from(v),
            Icon::Cg(v) => IconData::from(v),
            Icon::Ch(v) => IconData::from(v),
            Icon::Fa(v) => IconData::from(v),
            Icon::Fi(v) => IconData::from(v),
            Icon::Hi(v) => IconData::from(v),
            Icon::Im(v) => IconData::from(v),
            Icon::Io(v) => IconData::from(v),
            Icon::Lu(v) => IconData::from(v),
            Icon::Oc(v) => IconData::from(v),
            Icon::Ri(v) => IconData::from(v),
            Icon::Si(v) => IconData::from(v),
            Icon::Tb(v) => IconData::from(v),
            Icon::Ti(v) => IconData::from(v),
            Icon::Vs(v) => IconData::from(v),
            Icon::Wi(v) => IconData::from(v),
            Icon::Custom(c) => IconData::from(c),
        }
    }
}

impl vstd::std_specs::convert::FromSpecImpl<Icon> for IconData {
    open spec fn obeys_from_spec() -> bool {
        true
    }

    open spec fn from_spec(icon: Icon) -> IconData {
        icon.record()
    }
}

impl PartialEq for Icon {
    /// Structural equality: the same arm around equal payloads.
    fn eq(&self, other: &Self) -> (r: bool)
        ensures
            r == (self@ == other@),
    {
        match (*self, *other) {
            (Icon::Ai(a), Icon::Ai(b)) => matches!(ai_compare(a, b), Ordering::Equal),
            (Icon::Bi(a), Icon::Bi(b)) => matches!(bi_compare(a, b), Ordering::Equal),
            (Icon::Bs(a), Icon::Bs(b)) => matches!(bs_compare(a, b), Ordering::Equal),
            (Icon::Cg(a), Icon::Cg(b)) => matches!(cg_compare(a, b), Ordering::Equal),
            (Icon::Ch(a), Icon::Ch(b)) => matches!(ch_compare(a, b), Ordering::Equal),
            (Icon::Fa(a), Icon::Fa(b)) => matches!(fa_compare(a, b), Ordering::Equal),
            (Icon::Fi(a), Icon::Fi(b)) => matches!(fi_compare(a, b), Ordering::Equal),
            (Icon::Hi(a), Icon::Hi(b)) => matches!(hi_compare(a, b), Ordering::Equal),
            (Icon::Im(a), Icon::Im(b)) => matches!(im_compare(a, b), Ordering::Equal),
            (Icon::Io(a), Icon::Io(b)) => matches!(io_compare(a, b), Ordering::Equal),
            (Icon::Lu(a), Icon::Lu(b)) => matches!(lu_compare(a, b), Ordering::Equal),
            (Icon::Oc(a), Icon::Oc(b)) => matches!(oc_compare(a, b), Ordering::Equal),
            (Icon::Ri(a), Icon::Ri(b)) => matches!(ri_compare(a, b), Ordering::Equal),
            (Icon::Si(a), Icon::Si(b)) => matches!(si_compare(a, b), Ordering::Equal),
            (Icon::Tb(a), Icon::Tb(b)) => matches!(tb_compare(a, b), Ordering::Equal),
            (Icon::Ti(a), Icon::Ti(b)) => matches!(ti_compare(a, b), Ordering::Equal),
            (Icon::Vs(a), Icon::Vs(b)) => matches!(vs_compare(a, b), Ordering::Equal),
            (Icon::Wi(a), Icon::Wi(b)) => matches!(wi_compare(a, b), Ordering::Equal),
            (Icon::Custom(a), Icon::Custom(b)) => a == b,
            _ => false,
        }
    }
}

impl vstd::std_specs::cmp::PartialEqSpecImpl for Icon {
    open spec fn obeys_eq_spec() -> bool {
        true
    }

    open spec fn eq_spec(&self, other: &Self) -> bool {
        self@ == other@
    }
}

impl PartialOrd for Icon {
    /// Compares two selectors by arm, then by payload.
    fn partial_cmp(&self, other: &Self) -> (r: Option<Ordering>)
        ensures
            r == Some(icon_order(self@, other@)),
    {
        match (*self, *other) {
            (Icon::Ai(a), Icon::Ai(b)) => Some(ai_compare(a, b)),
            (Icon::Bi(a), Icon::Bi(b)) => Some(bi_compare(a, b)),
            (Icon::Bs(a), Icon::Bs(b)) => Some(bs_compare(a, b)),
            (Icon::Cg(a), Icon::Cg(b)) => Some(cg_compare(a, b)),
            (Icon::Ch(a), Icon::Ch(b)) => Some(ch_compare(a, b)),
            (Icon::Fa(a), Icon::Fa(b)) => Some(fa_compare(a, b)),
            (Icon::Fi(a), Icon::Fi(b)) => Some(fi_compare(a, b)),
            (Icon::Hi(a), Icon::Hi(b)) => Some(hi_compare(a, b)),
            (Icon::Im(a), Icon::Im(b)) => Some(im_compare(a, b)),
            (Icon::Io(a), Icon::Io(b)) => Some(io_compare(a, b)),
            (Icon::Lu(a), Icon::Lu(b)) => Some(lu_compare(a, b)),
            (Icon::Oc(a), Icon::Oc(b)) => Some(oc_compare(a, b)),
            (Icon::Ri(a), Icon::Ri(b)) => Some(ri_compare(a, b)),
            (Icon::Si(a), Icon::Si(b)) => Some(si_compare(a, b)),
            (Icon::Tb(a), Icon::Tb(b)) => Some(tb_compare(a, b)),
            (Icon::Ti(a), Icon::Ti(b)) => Some(ti_compare(a, b)),
            (Icon::Vs(a), Icon::Vs(b)) => Some(vs_compare(a, b)),
            (Icon::Wi(a), Icon::Wi(b)) => Some(wi_compare(a, b)),
            (Icon::Custom(a), Icon::Custom(b)) => a.partial_cmp(&b),
            _ => {
                if self.arm_index() < other.arm_index() {
                    Some(Ordering::Less)
                } else {
                    Some(Ordering::Greater)
                }
            },
        }
    }
}

impl vstd::std_specs::cmp::PartialOrdSpecImpl for Icon {
    open spec fn obeys_partial_cmp_spec() -> bool {
        true
    }

    open spec fn partial_cmp_spec(&self, other: &Self) -> Option<Ordering> {
        Some(icon_order(self@, other@))
    }
}

} // verus!
