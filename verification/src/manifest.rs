//! The manifest model: one typed field-access contract over three backings.

use vstd::prelude::*;

use crate::projection::Projection;
use crate::projection::ProjectionView;
use crate::read_json::json_get_int;
use crate::read_json::json_get_pair;
use crate::read_json::json_get_string;
use crate::read_json::json_get_string_seq;
use crate::read_json::json_get_uint;
use crate::read_json::json_int_at;
use crate::read_json::json_pair_at;
use crate::read_json::json_string_at;
use crate::read_json::json_string_seq_at;
use crate::read_json::json_uint_at;
use crate::read_toml::toml_get_int;
use crate::read_toml::toml_get_pair;
use crate::read_toml::toml_get_string;
use crate::read_toml::toml_get_string_seq;
use crate::read_toml::toml_get_uint;
use crate::read_toml::toml_int_at;
use crate::read_toml::toml_pair_at;
use crate::read_toml::toml_string_at;
use crate::read_toml::toml_string_seq_at;
use crate::read_toml::toml_uint_at;
use crate::render::render_projection;
use crate::render::spec_render;
use crate::render::Error;

verus! {

/// The declarative description of one buildable application unit: a tagged
/// union with exactly one active variant, chosen at construction and never
/// changed afterwards.
///
/// `appid` and `apptype` are semantically mandatory for the unit to be
/// buildable, but the model never enforces that: absence is representable,
/// is reported as absence by the accessors, and renders as an empty token.
pub enum Manifest {
    /// A loosely-typed JSON value tree; field reads are lazy lookups.
    Json(serde_json::Value),
    /// A loosely-typed TOML value tree; same lazy-read policy.
    Toml(toml::Value),
    /// A fully-typed record; field reads project the stored values.
    Struct {
        /// Name displayed in menus.
        name: Option<String>,
        /// Application id within the build system.
        appid: String,
        /// Application kind token, one of the build tool's enumeration
        /// (`SERVICE`, `SYSTEM`, `APP`, `PLUGIN`, `DEBUG`, `ARCHIVE`,
        /// `SETTINGS`, `STARTUP`, `EXTERNAL`, `METAPACKAGE`).
        apptype: String,
        /// Stack size, in bytes, to allocate on startup.
        stack_size: Option<u64>,
        /// Animated icon name from the built-in assets.
        icon: Option<String>,
        /// C function used as the application's entry point.
        entry_point: Option<String>,
        /// Internal flags for system applications.
        flags: Vec<String>,
        /// C preprocessor definitions declared globally for other units.
        cdefines: Vec<String>,
        /// Application ids also included in the build configuration.
        requires_list: Vec<String>,
        /// Application ids this unit cannot be built together with.
        conflicts: Vec<String>,
        /// Functionally identical to `requires_list`.
        provides: Vec<String>,
        /// Sort order of the unit within its menu group.
        order: Option<i64>,
        /// C header files exported to the API definitions.
        sdk_headers: Vec<String>,
        /// File name masks gathering the unit's sources.
        sources: Vec<String>,
        /// Application version pair embedded in the packaged unit.
        fap_version: Option<(String, String)>,
        /// Name of an icon file embedded in the packaged unit.
        fap_icon: Option<String>,
        /// Extra libraries to link the unit against.
        fap_libs: Vec<String>,
        /// Subcategory, and the unit's folder in the file system.
        fap_category: Option<String>,
        /// Short application description.
        fap_description: Option<String>,
        /// The application's author.
        fap_author: Option<String>,
        /// The application's homepage.
        fap_weburl: Option<String>,
    },
}

/// The projection a JSON tree resolves to: every catalog field looked up by
/// its own name, each read failing soft to absence.
pub open spec fn json_projection(v: serde_json::Value) -> ProjectionView {
    ProjectionView {
        appid: json_string_at(v, "appid"@),
        apptype: json_string_at(v, "apptype"@),
        name: json_string_at(v, "name"@),
        stack_size: json_uint_at(v, "stack_size"@),
        icon: json_string_at(v, "icon"@),
        entry_point: json_string_at(v, "entry_point"@),
        order: json_int_at(v, "order"@),
        sources: json_string_seq_at(v, "sources"@),
        flags: json_string_seq_at(v, "flags"@),
        cdefines: json_string_seq_at(v, "cdefines"@),
        requires_list: json_string_seq_at(v, "requires"@),
        conflicts: json_string_seq_at(v, "conflicts"@),
        provides: json_string_seq_at(v, "provides"@),
        sdk_headers: json_string_seq_at(v, "sdk_headers"@),
        fap_libs: json_string_seq_at(v, "fap_libs"@),
        fap_version: json_pair_at(v, "fap_version"@),
        fap_icon: json_string_at(v, "fap_icon"@),
        fap_category: json_string_at(v, "fap_category"@),
        fap_description: json_string_at(v, "fap_description"@),
        fap_author: json_string_at(v, "fap_author"@),
        fap_weburl: json_string_at(v, "fap_weburl"@),
    }
}

/// The projection a TOML tree resolves to.
pub open spec fn toml_projection(v: toml::Value) -> ProjectionView {
    ProjectionView {
        appid: toml_string_at(v, "appid"@),
        apptype: toml_string_at(v, "apptype"@),
        name: toml_string_at(v, "name"@),
        stack_size: toml_uint_at(v, "stack_size"@),
        icon: toml_string_at(v, "icon"@),
        entry_point: toml_string_at(v, "entry_point"@),
        order: toml_int_at(v, "order"@),
        sources: toml_string_seq_at(v, "sources"@),
        flags: toml_string_seq_at(v, "flags"@),
        cdefines: toml_string_seq_at(v, "cdefines"@),
        requires_list: toml_string_seq_at(v, "requires"@),
        conflicts: toml_string_seq_at(v, "conflicts"@),
        provides: toml_string_seq_at(v, "provides"@),
        sdk_headers: toml_string_seq_at(v, "sdk_headers"@),
        fap_libs: toml_string_seq_at(v, "fap_libs"@),
        fap_version: toml_pair_at(v, "fap_version"@),
        fap_icon: toml_string_at(v, "fap_icon"@),
        fap_category: toml_string_at(v, "fap_category"@),
        fap_description: toml_string_at(v, "fap_description"@),
        fap_author: toml_string_at(v, "fap_author"@),
        fap_weburl: toml_string_at(v, "fap_weburl"@),
    }
}

fn clone_opt_string(v: &Option<String>) -> (r: Option<String>)
    ensures
        r.deep_view() == v.deep_view(),
{
    match v {
        Some(s) => Some(s.clone()),
        None => None,
    }
}

fn clone_strings(v: &Vec<String>) -> (r: Vec<String>)
    ensures
        r.deep_view() == v.deep_view(),
{
    let mut r: Vec<String> = Vec::new();
    let mut i: usize = 0;
    while i < v.len()
        invariant
            i <= v.len(),
            r@.len() == i as int,
            r.deep_view() == v.deep_view().take(i as int),
        decreases v.len() - i,
    {
        let ghost prev_view = r@;
        let ghost prev_deep = r.deep_view();
        let x = v[i].clone();
        proof {
            assert(x@ == v@[i as int]@);
        }
        r.push(x);
        i = i + 1;
        proof {
            assert forall|j: int| 0 <= j < i implies r.deep_view()[j] == v.deep_view()[j] by {
                if j < i - 1 {
                    assert(r@[j] == prev_view[j]);
                    assert(prev_deep[j] == prev_view[j].deep_view());
                    assert(prev_deep[j] == v.deep_view().take(i - 1)[j]);
                } else {
                    assert(r@[j] == x);
                }
            }
            assert(r.deep_view() =~= v.deep_view().take(i as int));
        }
    }
    proof {
        assert(r.deep_view() =~= v.deep_view());
    }
    r
}

fn clone_opt_pair(v: &Option<(String, String)>) -> (r: Option<(String, String)>)
    ensures
        r.deep_view() == v.deep_view(),
{
    match v {
        Some(p) => Some((p.0.clone(), p.1.clone())),
        None => None,
    }
}

impl Manifest {
    /// The field values this manifest resolves to, whatever its backing: the
    /// stored values of a `Struct`, or the named lookups into a value tree.
    pub open spec fn spec_projection(self) -> ProjectionView {
        match self {
            Manifest::Json(v) => json_projection(v),
            Manifest::Toml(v) => toml_projection(v),
            Manifest::Struct {
                name,
                appid,
                apptype,
                stack_size,
                icon,
                entry_point,
                flags,
                cdefines,
                requires_list,
                conflicts,
                provides,
                order,
                sdk_headers,
                sources,
                fap_version,
                fap_icon,
                fap_libs,
                fap_category,
                fap_description,
                fap_author,
                fap_weburl,
            } => ProjectionView {
                appid: Some(appid@),
                apptype: Some(apptype@),
                name: name.deep_view(),
                stack_size,
                icon: icon.deep_view(),
                entry_point: entry_point.deep_view(),
                order,
                sources: sources.deep_view(),
                flags: flags.deep_view(),
                cdefines: cdefines.deep_view(),
                requires_list: requires_list.deep_view(),
                conflicts: conflicts.deep_view(),
                provides: provides.deep_view(),
                sdk_headers: sdk_headers.deep_view(),
                fap_libs: fap_libs.deep_view(),
                fap_version: fap_version.deep_view(),
                fap_icon: fap_icon.deep_view(),
                fap_category: fap_category.deep_view(),
                fap_description: fap_description.deep_view(),
                fap_author: fap_author.deep_view(),
                fap_weburl: fap_weburl.deep_view(),
            },
        }
    }

    /// The application id; `Some` whenever the backing holds one.
    pub fn appid(&self) -> (r: Option<String>)
        ensures
            r.deep_view() == self.spec_projection().appid,
    {
        match self {
            Manifest::Struct { appid, .. } => Some(appid.clone()),
            Manifest::Json(v) => json_get_string(v, "appid"),
            Manifest::Toml(v) => toml_get_string(v, "appid"),
        }
    }

    /// The application kind token.
    pub fn apptype(&self) -> (r: Option<String>)
        ensures
            r.deep_view() == self.spec_projection().apptype,
    {
        match self {
            Manifest::Struct { apptype, .. } => Some(apptype.clone()),
            Manifest::Json(v) => json_get_string(v, "apptype"),
            Manifest::Toml(v) => toml_get_string(v, "apptype"),
        }
    }

    /// The displayed name.
    pub fn name(&self) -> (r: Option<String>)
        ensures
            r.deep_view() == self.spec_projection().name,
    {
        match self {
            Manifest::Struct { name, .. } => clone_opt_string(name),
            Manifest::Json(v) => json_get_string(v, "name"),
            Manifest::Toml(v) => toml_get_string(v, "name"),
        }
    }

    /// The stack size in bytes.
    pub fn stack_size(&self) -> (r: Option<u64>)
        ensures
            r == self.spec_projection().stack_size,
    {
        match self {
            Manifest::Struct { stack_size, .. } => *stack_size,
            Manifest::Json(v) => json_get_uint(v, "stack_size"),
            Manifest::Toml(v) => toml_get_uint(v, "stack_size"),
        }
    }

    /// The built-in icon name.
    pub fn icon(&self) -> (r: Option<String>)
        ensures
            r.deep_view() == self.spec_projection().icon,
    {
        match self {
            Manifest::Struct { icon, .. } => clone_opt_string(icon),
            Manifest::Json(v) => json_get_string(v, "icon"),
            Manifest::Toml(v) => toml_get_string(v, "icon"),
        }
    }

    /// The entry point function name.
    pub fn entry_point(&self) -> (r: Option<String>)
        ensures
            r.deep_view() == self.spec_projection().entry_point,
    {
        match self {
            Manifest::Struct { entry_point, .. } => clone_opt_string(entry_point),
            Manifest::Json(v) => json_get_string(v, "entry_point"),
            Manifest::Toml(v) => toml_get_string(v, "entry_point"),
        }
    }

    /// The sort order.
    pub fn order(&self) -> (r: Option<i64>)
        ensures
            r == self.spec_projection().order,
    {
        match self {
            Manifest::Struct { order, .. } => *order,
            Manifest::Json(v) => json_get_int(v, "order"),
            Manifest::Toml(v) => toml_get_int(v, "order"),
        }
    }

    /// The source file masks; empty when absent or malformed.
    pub fn sources(&self) -> (r: Vec<String>)
        ensures
            r.deep_view() == self.spec_projection().sources,
    {
        match self {
            Manifest::Struct { sources, .. } => clone_strings(sources),
            Manifest::Json(v) => json_get_string_seq(v, "sources"),
            Manifest::Toml(v) => toml_get_string_seq(v, "sources"),
        }
    }

    /// The internal flags; empty when absent or malformed.
    pub fn flags(&self) -> (r: Vec<String>)
        ensures
            r.deep_view() == self.spec_projection().flags,
    {
        match self {
            Manifest::Struct { flags, .. } => clone_strings(flags),
            Manifest::Json(v) => json_get_string_seq(v, "flags"),
            Manifest::Toml(v) => toml_get_string_seq(v, "flags"),
        }
    }

    /// The global C defines; empty when absent or malformed.
    pub fn cdefines(&self) -> (r: Vec<String>)
        ensures
            r.deep_view() == self.spec_projection().cdefines,
    {
        match self {
            Manifest::Struct { cdefines, .. } => clone_strings(cdefines),
            Manifest::Json(v) => json_get_string_seq(v, "cdefines"),
            Manifest::Toml(v) => toml_get_string_seq(v, "cdefines"),
        }
    }

    /// The required application ids; empty when absent or malformed.
    pub fn requires_list(&self) -> (r: Vec<String>)
        ensures
            r.deep_view() == self.spec_projection().requires_list,
    {
        match self {
            Manifest::Struct { requires_list, .. } => clone_strings(requires_list),
            Manifest::Json(v) => json_get_string_seq(v, "requires"),
            Manifest::Toml(v) => toml_get_string_seq(v, "requires"),
        }
    }

    /// The conflicting application ids; empty when absent or malformed.
    pub fn conflicts(&self) -> (r: Vec<String>)
        ensures
            r.deep_view() == self.spec_projection().conflicts,
    {
        match self {
            Manifest::Struct { conflicts, .. } => clone_strings(conflicts),
            Manifest::Json(v) => json_get_string_seq(v, "conflicts"),
            Manifest::Toml(v) => toml_get_string_seq(v, "conflicts"),
        }
    }

    /// The provided application ids; empty when absent or malformed.
    pub fn provides(&self) -> (r: Vec<String>)
        ensures
            r.deep_view() == self.spec_projection().provides,
    {
        match self {
            Manifest::Struct { provides, .. } => clone_strings(provides),
            Manifest::Json(v) => json_get_string_seq(v, "provides"),
            Manifest::Toml(v) => toml_get_string_seq(v, "provides"),
        }
    }

    /// The exported header files; empty when absent or malformed.
    pub fn sdk_headers(&self) -> (r: Vec<String>)
        ensures
            r.deep_view() == self.spec_projection().sdk_headers,
    {
        match self {
            Manifest::Struct { sdk_headers, .. } => clone_strings(sdk_headers),
            Manifest::Json(v) => json_get_string_seq(v, "sdk_headers"),
            Manifest::Toml(v) => toml_get_string_seq(v, "sdk_headers"),
        }
    }

    /// The extra libraries; empty when absent or malformed.
    pub fn fap_libs(&self) -> (r: Vec<String>)
        ensures
            r.deep_view() == self.spec_projection().fap_libs,
    {
        match self {
            Manifest::Struct { fap_libs, .. } => clone_strings(fap_libs),
            Manifest::Json(v) => json_get_string_seq(v, "fap_libs"),
            Manifest::Toml(v) => toml_get_string_seq(v, "fap_libs"),
        }
    }

    /// The version pair; `None` for any arity other than two — never a
    /// partial pair.
    pub fn fap_version(&self) -> (r: Option<(String, String)>)
        ensures
            r.deep_view() == self.spec_projection().fap_version,
    {
        match self {
            Manifest::Struct { fap_version, .. } => clone_opt_pair(fap_version),
            Manifest::Json(v) => json_get_pair(v, "fap_version"),
            Manifest::Toml(v) => toml_get_pair(v, "fap_version"),
        }
    }

    /// The packaged icon file name.
    pub fn fap_icon(&self) -> (r: Option<String>)
        ensures
            r.deep_view() == self.spec_projection().fap_icon,
    {
        match self {
            Manifest::Struct { fap_icon, .. } => clone_opt_string(fap_icon),
            Manifest::Json(v) => json_get_string(v, "fap_icon"),
            Manifest::Toml(v) => toml_get_string(v, "fap_icon"),
        }
    }

    /// The subcategory.
    pub fn fap_category(&self) -> (r: Option<String>)
        ensures
            r.deep_view() == self.spec_projection().fap_category,
    {
        match self {
            Manifest::Struct { fap_category, .. } => clone_opt_string(fap_category),
            Manifest::Json(v) => json_get_string(v, "fap_category"),
            Manifest::Toml(v) => toml_get_string(v, "fap_category"),
        }
    }

    /// The short description.
    pub fn fap_description(&self) -> (r: Option<String>)
        ensures
            r.deep_view() == self.spec_projection().fap_description,
    {
        match self {
            Manifest::Struct { fap_description, .. } => clone_opt_string(fap_description),
            Manifest::Json(v) => json_get_string(v, "fap_description"),
            Manifest::Toml(v) => toml_get_string(v, "fap_description"),
        }
    }

    /// The author.
    pub fn fap_author(&self) -> (r: Option<String>)
        ensures
            r.deep_view() == self.spec_projection().fap_author,
    {
        match self {
            Manifest::Struct { fap_author, .. } => clone_opt_string(fap_author),
            Manifest::Json(v) => json_get_string(v, "fap_author"),
            Manifest::Toml(v) => toml_get_string(v, "fap_author"),
        }
    }

    /// The homepage.
    pub fn fap_weburl(&self) -> (r: Option<String>)
        ensures
            r.deep_view() == self.spec_projection().fap_weburl,
    {
        match self {
            Manifest::Struct { fap_weburl, .. } => clone_opt_string(fap_weburl),
            Manifest::Json(v) => json_get_string(v, "fap_weburl"),
            Manifest::Toml(v) => toml_get_string(v, "fap_weburl"),
        }
    }

    /// Reads every catalog field once and returns the flat projection the
    /// renderer consumes.
    pub fn project(&self) -> (r: Projection)
        ensures
            r@ == self.spec_projection(),
    {
        let r = Projection {
            appid: self.appid(),
            apptype: self.apptype(),
            name: self.name(),
            stack_size: self.stack_size(),
            icon: self.icon(),
            entry_point: self.entry_point(),
            order: self.order(),
            sources: self.sources(),
            flags: self.flags(),
            cdefines: self.cdefines(),
            requires_list: self.requires_list(),
            conflicts: self.conflicts(),
            provides: self.provides(),
            sdk_headers: self.sdk_headers(),
            fap_libs: self.fap_libs(),
            fap_version: self.fap_version(),
            fap_icon: self.fap_icon(),
            fap_category: self.fap_category(),
            fap_description: self.fap_description(),
            fap_author: self.fap_author(),
            fap_weburl: self.fap_weburl(),
        };
        proof {
            assert(r@ =~= self.spec_projection());
        }
        r
    }

    /// Renders this manifest into the canonical text block. Every render of
    /// an unchanged manifest returns the same text; the call always
    /// succeeds, absence never being an error.
    pub fn try_to_string(&self) -> (r: Result<String, Error>)
        ensures
            r matches Ok(s) && s@ == spec_render(self.spec_projection()),
    {
        let p = self.project();
        Ok(render_projection(&p))
    }
}

/// Renders a raw JSON tree without wrapping it first: the text is exactly
/// what rendering `Manifest::Json` of the same tree yields.
pub fn render_raw_json(json: &serde_json::Value) -> (r: Result<String, Error>)
    ensures
        r matches Ok(s) && s@ == spec_render(json_projection(*json)),
{
    let p = Projection {
        appid: json_get_string(json, "appid"),
        apptype: json_get_string(json, "apptype"),
        name: json_get_string(json, "name"),
        stack_size: json_get_uint(json, "stack_size"),
        icon: json_get_string(json, "icon"),
        entry_point: json_get_string(json, "entry_point"),
        order: json_get_int(json, "order"),
        sources: json_get_string_seq(json, "sources"),
        flags: json_get_string_seq(json, "flags"),
        cdefines: json_get_string_seq(json, "cdefines"),
        requires_list: json_get_string_seq(json, "requires"),
        conflicts: json_get_string_seq(json, "conflicts"),
        provides: json_get_string_seq(json, "provides"),
        sdk_headers: json_get_string_seq(json, "sdk_headers"),
        fap_libs: json_get_string_seq(json, "fap_libs"),
        fap_version: json_get_pair(json, "fap_version"),
        fap_icon: json_get_string(json, "fap_icon"),
        fap_category: json_get_string(json, "fap_category"),
        fap_description: json_get_string(json, "fap_description"),
        fap_author: json_get_string(json, "fap_author"),
        fap_weburl: json_get_string(json, "fap_weburl"),
    };
    proof {
        assert(p@ =~= json_projection(*json));
    }
    Ok(render_projection(&p))
}

/// Renders a raw TOML tree without wrapping it first: the text is exactly
/// what rendering `Manifest::Toml` of the same tree yields.
pub fn render_raw_toml(value: &toml::Value) -> (r: Result<String, Error>)
    ensures
        r matches Ok(s) && s@ == spec_render(toml_projection(*value)),
{
    let p = Projection {
        appid: toml_get_string(value, "appid"),
        apptype: toml_get_string(value, "apptype"),
        name: toml_get_string(value, "name"),
        stack_size: toml_get_uint(value, "stack_size"),
        icon: toml_get_string(value, "icon"),
        entry_point: toml_get_string(value, "entry_point"),
        order: toml_get_int(value, "order"),
        sources: toml_get_string_seq(value, "sources"),
        flags: toml_get_string_seq(value, "flags"),
        cdefines: toml_get_string_seq(value, "cdefines"),
        requires_list: toml_get_string_seq(value, "requires"),
        conflicts: toml_get_string_seq(value, "conflicts"),
        provides: toml_get_string_seq(value, "provides"),
        sdk_headers: toml_get_string_seq(value, "sdk_headers"),
        fap_libs: toml_get_string_seq(value, "fap_libs"),
        fap_version: toml_get_pair(value, "fap_version"),
        fap_icon: toml_get_string(value, "fap_icon"),
        fap_category: toml_get_string(value, "fap_category"),
        fap_description: toml_get_string(value, "fap_description"),
        fap_author: toml_get_string(value, "fap_author"),
        fap_weburl: toml_get_string(value, "fap_weburl"),
    };
    proof {
        assert(p@ =~= toml_projection(*value));
    }
    Ok(render_projection(&p))
}

/// Cross-encoding equivalence: two manifests that resolve to the same field
/// values render to the same text, whichever encoding backs each of them.
pub proof fn lemma_render_cross_encoding(a: Manifest, b: Manifest)
    requires
        a.spec_projection() == b.spec_projection(),
    ensures
        spec_render(a.spec_projection()) == spec_render(b.spec_projection()),
{
}

impl From<serde_json::Value> for Manifest {
    /// Wraps an already-parsed JSON tree; the wrap is infallible.
    fn from(metadata: serde_json::Value) -> (r: Self) {
        Manifest::Json(metadata)
    }
}

impl vstd::std_specs::convert::FromSpecImpl<serde_json::Value> for Manifest {
    open spec fn obeys_from_spec() -> bool {
        true
    }

    open spec fn from_spec(metadata: serde_json::Value) -> Manifest {
        Manifest::Json(metadata)
    }
}

impl From<toml::Value> for Manifest {
    /// Wraps an already-parsed TOML tree; the wrap is infallible.
    fn from(metadata: toml::Value) -> (r: Self) {
        Manifest::Toml(metadata)
    }
}

impl vstd::std_specs::convert::FromSpecImpl<toml::Value> for Manifest {
    open spec fn obeys_from_spec() -> bool {
        true
    }

    open spec fn from_spec(metadata: toml::Value) -> Manifest {
        Manifest::Toml(metadata)
    }
}

} // verus!
