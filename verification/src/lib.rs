//! Icons from many curated sets behind one selector and one render record.
//!
//! Each curated set is a crate of its own with an enumeration of its icons.
//! [`Icon`] selects any icon of any of them, or a [`CustomIcon`] written by
//! hand; it turns into an [`IconData`], the description of the SVG drawing
//! that a renderer reads. [`icon`] expands the shorthand that names an icon
//! by its identifier alone.

pub mod custom;
pub mod laws;
pub mod order;
pub mod record;
pub mod selector;
pub mod sets;
pub mod shorthand;
pub mod text;

pub use crate::custom::CustomIcon;
pub use crate::record::IconData;
pub use crate::selector::Icon;
pub use crate::shorthand::{icon, ShorthandError, Token};
pub use icondata_ai::AiIcon;
pub use icondata_bi::BiIcon;
pub use icondata_bs::BsIcon;
pub use icondata_cg::CgIcon;
pub use icondata_ch::ChIcon;
pub use icondata_fa::FaIcon;
pub use icondata_fi::FiIcon;
pub use icondata_hi::HiIcon;
pub use icondata_im::ImIcon;
pub use icondata_io::IoIcon;
pub use icondata_lu::LuIcon;
pub use icondata_oc::OcIcon;
pub use icondata_ri::RiIcon;
pub use icondata_si::SiIcon;
pub use icondata_tb::TbIcon;
pub use icondata_ti::TiIcon;
pub use icondata_vs::VsIcon;
pub use icondata_wi::WiIcon;
