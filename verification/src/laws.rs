//! What holds of widening, projection, equality and order, for every value.

use crate::custom::{
    lemma_record_order_equal, lemma_record_order_reflexive, lemma_record_order_reversed,
    lemma_record_order_transitive, record_order, CustomIcon,
};
use crate::order::{int_order, reversed};
use crate::record::IconData;
use crate::selector::{icon_order, Icon, IconView};
use crate::sets::ai::{ai_rank, ai_record};
use crate::sets::bi::{bi_rank, bi_record};
use crate::sets::bs::{bs_rank, bs_record};
use crate::sets::cg::{cg_rank, cg_record};
use crate::sets::ch::{ch_rank, ch_record};
use crate::sets::fa::{fa_rank, fa_record};
use crate::sets::fi::{fi_rank, fi_record};
use crate::sets::hi::{hi_rank, hi_record};
use crate::sets::im::{im_rank, im_record};
use crate::sets::io::{io_rank, io_record};
use crate::sets::lu::{lu_rank, lu_record};
use crate::sets::oc::{oc_rank, oc_record};
use crate::sets::ri::{ri_rank, ri_record};
use crate::sets::si::{si_rank, si_record};
use crate::sets::tb::{tb_rank, tb_record};
use crate::sets::ti::{ti_rank, ti_record};
use crate::sets::vs::{vs_rank, vs_record};
use crate::sets::wi::{wi_rank, wi_record};
use icondata_ai::AiIcon;
use icondata_bi::BiIcon;
use icondata_bs::BsIcon;
use icondata_cg::CgIcon;
use icondata_ch::ChIcon;
use icondata_fa::FaIcon;
use icondata_fi::FiIcon;
use icondata_hi::HiIcon;
use icondata_im::ImIcon;
use icondata_io::IoIcon;
use icondata_lu::LuIcon;
use icondata_oc::OcIcon;
use icondata_ri::RiIcon;
use icondata_si::SiIcon;
use icondata_tb::TbIcon;
use icondata_ti::TiIcon;
use icondata_vs::VsIcon;
use icondata_wi::WiIcon;
use std::cmp::Ordering;
use vstd::prelude::*;
use vstd::std_specs::cmp::{PartialEqSpec, PartialOrdSpec};
use vstd::std_specs::convert::FromSpec;

verus! {

/// Widening an `AiIcon` gives the `Ai` arm around that very icon, and
/// projecting the selector gives what projecting the icon itself gives: the
/// record that the set holds for it.
pub proof fn lemma_widen_ai(icon: AiIcon)
    ensures
        Icon::from_spec(icon) matches Icon::Ai(payload) && payload == icon,
        IconData::from_spec(Icon::from_spec(icon)) == IconData::from_spec(icon),
        IconData::from_spec(icon) == ai_record(ai_rank(icon)),
{
}

/// Widening a `BiIcon` gives the `Bi` arm around that very icon, and
/// projecting the selector gives what projecting the icon itself gives: the
/// record that the set holds for it.
pub proof fn lemma_widen_bi(icon: BiIcon)
    ensures
        Icon::from_spec(icon) matches Icon::Bi(payload) && payload == icon,
        IconData::from_spec(Icon::from_spec(icon)) == IconData::from_spec(icon),
        IconData::from_spec(icon) == bi_record(bi_rank(icon)),
{
}

/// Widening a `BsIcon` gives the `Bs` arm around that very icon, and
/// projecting the selector gives what projecting the icon itself gives: the
/// record that the set holds for it.
pub proof fn lemma_widen_bs(icon: BsIcon)
    ensures
        Icon::from_spec(icon) matches Icon::Bs(payload) && payload == icon,
        IconData::from_spec(Icon::from_spec(icon)) == IconData::from_spec(icon),
        IconData::from_spec(icon) == bs_record(bs_rank(icon)),
{
}

/// Widening a `CgIcon` gives the `Cg` arm around that very icon, and
/// projecting the selector gives what projecting the icon itself gives: the
/// record that the set holds for it.
pub proof fn lemma_widen_cg(icon: CgIcon)
    ensures
        Icon::from_spec(icon) matches Icon::Cg(payload) && payload == icon,
        IconData::from_spec(Icon::from_spec(icon)) == IconData::from_spec(icon),
        IconData::from_spec(icon) == cg_record(cg_rank(icon)),
{
}

/// Widening a `ChIcon` gives the `Ch` arm around that very icon, and
/// projecting the selector gives what projecting the icon itself gives: the
/// record that the set holds for it.
pub proof fn lemma_widen_ch(icon: ChIcon)
    ensures
        Icon::from_spec(icon) matches Icon::Ch(payload) && payload == icon,
        IconData::from_spec(Icon::from_spec(icon)) == IconData::from_spec(icon),
        IconData::from_spec(icon) == ch_record(ch_rank(icon)),
{
}

/// Widening a `FaIcon` gives the `Fa` arm around that very icon, and
/// projecting the selector gives what projecting the icon itself gives: the
/// record that the set holds for it.
pub proof fn lemma_widen_fa(icon: FaIcon)
    ensures
        Icon::from_spec(icon) matches Icon::Fa(payload) && payload == icon,
        IconData::from_spec(Icon::from_spec(icon)) == IconData::from_spec(icon),
        IconData::from_spec(icon) == fa_record(fa_rank(icon)),
{
}

/// Widening a `FiIcon` gives the `Fi` arm around that very icon, and
/// projecting the selector gives what projecting the icon itself gives: the
/// record that the set holds for it.
pub proof fn lemma_widen_fi(icon: FiIcon)
    ensures
        Icon::from_spec(icon) matches Icon::Fi(payload) && payload == icon,
        IconData::from_spec(Icon::from_spec(icon)) == IconData::from_spec(icon),
        IconData::from_spec(icon) == fi_record(fi_rank(icon)),
{
}

/// Widening a `HiIcon` gives the `Hi` arm around that very icon, and
/// projecting the selector gives what projecting the icon itself gives: the
/// record that the set holds for it.
pub proof fn lemma_widen_hi(icon: HiIcon)
    ensures
        Icon::from_spec(icon) matches Icon::Hi(payload) && payload == icon,
        IconData::from_spec(Icon::from_spec(icon)) == IconData::from_spec(icon),
        IconData::from_spec(icon) == hi_record(hi_rank(icon)),
{
}

/// Widening an `ImIcon` gives the `Im` arm around that very icon, and
/// projecting the selector gives what projecting the icon itself gives: the
/// record that the set holds for it.
pub proof fn lemma_widen_im(icon: ImIcon)
    ensures
        Icon::from_spec(icon) matches Icon::Im(payload) && payload == icon,
        IconData::from_spec(Icon::from_spec(icon)) == IconData::from_spec(icon),
        IconData::from_spec(icon) == im_record(im_rank(icon)),
{
}

/// Widening an `IoIcon` gives the `Io` arm around that very icon, and
/// projecting the selector gives what projecting the icon itself gives: the
/// record that the set holds for it.
pub proof fn lemma_widen_io(icon: IoIcon)
    ensures
        Icon::from_spec(icon) matches Icon::Io(payload) && payload == icon,
        IconData::from_spec(Icon::from_spec(icon)) == IconData::from_spec(icon),
        IconData::from_spec(icon) == io_record(io_rank(icon)),
{
}

/// Widening a `LuIcon` gives the `Lu` arm around that very icon, and
/// projecting the selector gives what projecting the icon itself gives: the
/// record that the set holds for it.
pub proof fn lemma_widen_lu(icon: LuIcon)
    ensures
        Icon::from_spec(icon) matches Icon::Lu(payload) && payload == icon,
        IconData::from_spec(Icon::from_spec(icon)) == IconData::from_spec(icon),
        IconData::from_spec(icon) == lu_record(lu_rank(icon)),
{
}

/// Widening an `OcIcon` gives the `Oc` arm around that very icon, and
/// projecting the selector gives what projecting the icon itself gives: the
/// record that the set holds for it.
pub proof fn lemma_widen_oc(icon: OcIcon)
    ensures
        Icon::from_spec(icon) matches Icon::Oc(payload) && payload == icon,
        IconData::from_spec(Icon::from_spec(icon)) == IconData::from_spec(icon),
        IconData::from_spec(icon) == oc_record(oc_rank(icon)),
{
}

/// Widening a `RiIcon` gives the `Ri` arm around that very icon, and
/// projecting the selector gives what projecting the icon itself gives: the
/// record that the set holds for it.
pub proof fn lemma_widen_ri(icon: RiIcon)
    ensures
        Icon::from_spec(icon) matches Icon::Ri(payload) && payload == icon,
        IconData::from_spec(Icon::from_spec(icon)) == IconData::from_spec(icon),
        IconData::from_spec(icon) == ri_record(ri_rank(icon)),
{
}

/// Widening a `SiIcon` gives the `Si` arm around that very icon, and
/// projecting the selector gives what projecting the icon itself gives: the
/// record that the set holds for it.
pub proof fn lemma_widen_si(icon: SiIcon)
    ensures
        Icon::from_spec(icon) matches Icon::Si(payload) && payload == icon,
        IconData::from_spec(Icon::from_spec(icon)) == IconData::from_spec(icon),
        IconData::from_spec(icon) == si_record(si_rank(icon)),
{
}

/// Widening a `TbIcon` gives the `Tb` arm around that very icon, and
/// projecting the selector gives what projecting the icon itself gives: the
/// record that the set holds for it.
pub proof fn lemma_widen_tb(icon: TbIcon)
    ensures
        Icon::from_spec(icon) matches Icon::Tb(payload) && payload == icon,
        IconData::from_spec(Icon::from_spec(icon)) == IconData::from_spec(icon),
        IconData::from_spec(icon) == tb_record(tb_rank(icon)),
{
}

/// Widening a `TiIcon` gives the `Ti` arm around that very icon, and
/// projecting the selector gives what projecting the icon itself gives: the
/// record that the set holds for it.
pub proof fn lemma_widen_ti(icon: TiIcon)
    ensures
        Icon::from_spec(icon) matches Icon::Ti(payload) && payload == icon,
        IconData::from_spec(Icon::from_spec(icon)) == IconData::from_spec(icon),
        IconData::from_spec(icon) == ti_record(ti_rank(icon)),
{
}

/// Widening a `VsIcon` gives the `Vs` arm around that very icon, and
/// projecting the selector gives what projecting the icon itself gives: the
/// record that the set holds for it.
pub proof fn lemma_widen_vs(icon: VsIcon)
    ensures
        Icon::from_spec(icon) matches Icon::Vs(payload) && payload == icon,
        IconData::from_spec(Icon::from_spec(icon)) == IconData::from_spec(icon),
        IconData::from_spec(icon) == vs_record(vs_rank(icon)),
{
}

/// Widening a `WiIcon` gives the `Wi` arm around that very icon, and
/// projecting the selector gives what projecting the icon itself gives: the
/// record that the set holds for it.
pub proof fn lemma_widen_wi(icon: WiIcon)
    ensures
        Icon::from_spec(icon) matches Icon::Wi(payload) && payload == icon,
        IconData::from_spec(Icon::from_spec(icon)) == IconData::from_spec(icon),
        IconData::from_spec(icon) == wi_record(wi_rank(icon)),
{
}

/// Widening a custom icon gives the `Custom` arm around that very icon, and
/// the selector's record is the copy of the icon's fields: each field of the
/// record is the icon's field of the same name.
pub proof fn lemma_widen_custom(icon: CustomIcon)
    ensures
        Icon::from_spec(icon) matches Icon::Custom(payload) && payload == icon,
        IconData::from_spec(Icon::from_spec(icon)) == IconData::from_spec(icon),
        IconData::from_spec(icon) == icon.record(),
        icon.record().style == icon.style,
        icon.record().x == icon.x,
        icon.record().y == icon.y,
        icon.record().width == icon.width,
        icon.record().height == icon.height,
        icon.record().view_box == icon.view_box,
        icon.record().stroke_linecap == icon.stroke_linecap,
        icon.record().stroke_linejoin == icon.stroke_linejoin,
        icon.record().stroke_width == icon.stroke_width,
        icon.record().stroke == icon.stroke,
        icon.record().fill == icon.fill,
        icon.record().data == icon.data,
        icon.record()@ == icon@,
{
}

/// Projection is a function of what the selector stands for: two selectors
/// with the same view have records that say the same, character by
/// character.
pub proof fn lemma_projection_deterministic(a: Icon, b: Icon)
    requires
        a@ == b@,
    ensures
        a.record()@ == b.record()@,
{
}

/// Every selector equals itself.
pub proof fn lemma_icon_eq_reflexive(s: Icon)
    ensures
        s.eq_spec(&s),
{
}

/// The order of selectors is total: every pair is comparable.
pub proof fn lemma_icon_order_total(a: Icon, b: Icon)
    ensures
        a.partial_cmp_spec(&b) == Some(icon_order(a@, b@)),
        a.partial_cmp_spec(&b) is Some,
{
}

/// Two selectors compare `Equal` exactly when they are equal.
pub proof fn lemma_icon_order_equal(a: Icon, b: Icon)
    ensures
        icon_order(a@, b@) == Ordering::Equal <==> a.eq_spec(&b),
{
    if a@ == b@ {
        if let IconView::Custom(x) = a@ {
            lemma_record_order_reflexive(x);
        }
    }
    if icon_order(a@, b@) == Ordering::Equal {
        if let (IconView::Custom(x), IconView::Custom(y)) = (a@, b@) {
            lemma_record_order_equal(x, y);
        }
    }
}

/// The order is antisymmetric: exchanging the two selectors reverses the
/// result, so of `a < b`, `a == b` and `a > b` exactly one holds.
pub proof fn lemma_icon_order_reversed(a: Icon, b: Icon)
    ensures
        icon_order(b@, a@) == reversed(icon_order(a@, b@)),
{
    if let (IconView::Custom(x), IconView::Custom(y)) = (a@, b@) {
        lemma_record_order_reversed(x, y);
    }
}

/// The order is transitive: if `a` is not after `b` and `b` is not after
/// `c`, then `a` is not after `c`; and `a` compares `Equal` to `c` only if
/// both steps were `Equal`, so one strict step makes the whole strict.
pub proof fn lemma_icon_order_transitive(a: Icon, b: Icon, c: Icon)
    requires
        icon_order(a@, b@) != Ordering::Greater,
        icon_order(b@, c@) != Ordering::Greater,
    ensures
        icon_order(a@, c@) != Ordering::Greater,
        icon_order(a@, c@) == Ordering::Equal ==> icon_order(a@, b@) == Ordering::Equal
            && icon_order(b@, c@) == Ordering::Equal,
{
    if let (IconView::Custom(x), IconView::Custom(y), IconView::Custom(z)) = (a@, b@, c@) {
        lemma_record_order_transitive(x, y, z);
    }
}

/// The order goes by arm first and by payload second: selectors of two
/// different arms are ordered as their arms are declared; two icons of one
/// set are ordered by their positions in the set; two custom icons are
/// ordered by `record_order`.
pub proof fn lemma_icon_order_by_arm_then_payload(a: Icon, b: Icon)
    ensures
        0 <= a.arm() <= 18,
        a.arm() != b.arm() ==> icon_order(a@, b@) == int_order(a.arm(), b.arm()),
        a.arm() == b.arm() ==> match (a@, b@) {
            (IconView::Curated { rank: r, .. }, IconView::Curated { rank: u, .. }) => icon_order(
                a@,
                b@,
            ) == int_order(r, u),
            (IconView::Custom(x), IconView::Custom(y)) => icon_order(a@, b@) == record_order(x, y),
            _ => false,
        },
{
}

} // verus!
