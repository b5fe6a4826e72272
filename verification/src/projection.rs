//! The flat key/value projection of a manifest that the renderer consumes.

use vstd::prelude::*;

verus! {

/// The spec-level value of a projection: one entry per catalog field.
///
/// A scalar entry is `None` when the field is absent in the source; a
/// sequence entry is the empty sequence in that case. Absence is a normal
/// state, never an error.
#[verifier::ext_equal]
pub struct ProjectionView {
    pub appid: Option<Seq<char>>,
    pub apptype: Option<Seq<char>>,
    pub name: Option<Seq<char>>,
    pub stack_size: Option<u64>,
    pub icon: Option<Seq<char>>,
    pub entry_point: Option<Seq<char>>,
    pub order: Option<i64>,
    pub sources: Seq<Seq<char>>,
    pub flags: Seq<Seq<char>>,
    pub cdefines: Seq<Seq<char>>,
    pub requires_list: Seq<Seq<char>>,
    pub conflicts: Seq<Seq<char>>,
    pub provides: Seq<Seq<char>>,
    pub sdk_headers: Seq<Seq<char>>,
    pub fap_libs: Seq<Seq<char>>,
    pub fap_version: Option<(Seq<char>, Seq<char>)>,
    pub fap_icon: Option<Seq<char>>,
    pub fap_category: Option<Seq<char>>,
    pub fap_description: Option<Seq<char>>,
    pub fap_author: Option<Seq<char>>,
    pub fap_weburl: Option<Seq<char>>,
}

/// A flat record of resolved field values, read off one manifest through the
/// uniform accessor contract. Rendering is a pure function of this record.
pub struct Projection {
    pub appid: Option<String>,
    pub apptype: Option<String>,
    pub name: Option<String>,
    pub stack_size: Option<u64>,
    pub icon: Option<String>,
    pub entry_point: Option<String>,
    pub order: Option<i64>,
    pub sources: Vec<String>,
    pub flags: Vec<String>,
    pub cdefines: Vec<String>,
    pub requires_list: Vec<String>,
    pub conflicts: Vec<String>,
    pub provides: Vec<String>,
    pub sdk_headers: Vec<String>,
    pub fap_libs: Vec<String>,
    pub fap_version: Option<(String, String)>,
    pub fap_icon: Option<String>,
    pub fap_category: Option<String>,
    pub fap_description: Option<String>,
    pub fap_author: Option<String>,
    pub fap_weburl: Option<String>,
}

impl View for Projection {
    type V = ProjectionView;

    open spec fn view(&self) -> ProjectionView {
        ProjectionView {
            appid: self.appid.deep_view(),
            apptype: self.apptype.deep_view(),
            name: self.name.deep_view(),
            stack_size: self.stack_size,
            icon: self.icon.deep_view(),
            entry_point: self.entry_point.deep_view(),
            order: self.order,
            sources: self.sources.deep_view(),
            flags: self.flags.deep_view(),
            cdefines: self.cdefines.deep_view(),
            requires_list: self.requires_list.deep_view(),
            conflicts: self.conflicts.deep_view(),
            provides: self.provides.deep_view(),
            sdk_headers: self.sdk_headers.deep_view(),
            fap_libs: self.fap_libs.deep_view(),
            fap_version: self.fap_version.deep_view(),
            fap_icon: self.fap_icon.deep_view(),
            fap_category: self.fap_category.deep_view(),
            fap_description: self.fap_description.deep_view(),
            fap_author: self.fap_author.deep_view(),
            fap_weburl: self.fap_weburl.deep_view(),
        }
    }
}

} // verus!
