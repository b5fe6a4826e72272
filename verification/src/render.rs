//! The canonical `App(...)` text block and the verified renderer.
//!
//! The output grammar is a compatibility surface: a fixed header comment,
//! `appid` and `apptype` always emitted, then one optional clause per catalog
//! field in a fixed order. A clause appears only when its field is present
//! (non-empty, for a sequence field); an absent field leaves no trace in the
//! text.

use vstd::prelude::*;
use vstd::string::StringExecFns;

use crate::projection::Projection;
use crate::projection::ProjectionView;
use crate::text::int_text;
use crate::text::push_int;
use crate::text::push_uint;
use crate::text::uint_text;

verus! {

/// The renderer's failure: the projection could not be turned into text.
/// The verified renderer never produces it; the type is the error half of the
/// rendering interface.
#[derive(Clone, Copy, PartialEq, Eq, Structural, Debug)]
pub struct Error;

/// The value of a scalar entry, with absence read as the empty string.
pub open spec fn opt_or_empty(v: Option<Seq<char>>) -> Seq<char> {
    match v {
        Some(s) => s,
        None => Seq::empty(),
    }
}

/// The opening of the block: the wrapper and the generated-file comment.
pub open spec fn header_text() -> Seq<char> {
    "App(\n\t# Automatically generated by `fam` crate.\n"@
}

/// The closing of the block.
pub open spec fn footer_text() -> Seq<char> {
    ")\n"@
}

/// The `appid` line, always emitted, quoted; an absent value leaves the
/// quotes empty.
pub open spec fn appid_clause(v: Option<Seq<char>>) -> Seq<char> {
    "\tappid=\""@ + opt_or_empty(v) + "\",\n"@
}

/// The `apptype` line, always emitted, as an unquoted enumeration token.
pub open spec fn apptype_clause(v: Option<Seq<char>>) -> Seq<char> {
    "\tapptype="@ + opt_or_empty(v) + ",\n"@
}

/// One optional quoted-scalar clause: its own line when the field is present,
/// nothing at all when it is absent.
pub open spec fn scalar_clause(key: Seq<char>, v: Option<Seq<char>>) -> Seq<char> {
    match v {
        Some(s) => "\t"@ + key + "=\""@ + s + "\", \n"@,
        None => Seq::empty(),
    }
}

/// One optional unsigned-integer clause, the value unquoted.
pub open spec fn uint_clause(key: Seq<char>, v: Option<u64>) -> Seq<char> {
    match v {
        Some(n) => "\t"@ + key + "="@ + uint_text(n) + ", \n"@,
        None => Seq::empty(),
    }
}

/// One optional signed-integer clause, the value unquoted.
pub open spec fn int_clause(key: Seq<char>, v: Option<i64>) -> Seq<char> {
    match v {
        Some(n) => "\t"@ + key + "="@ + int_text(n) + ", \n"@,
        None => Seq::empty(),
    }
}

/// One sequence item inside its double quotes.
pub open spec fn quoted_item(s: Seq<char>) -> Seq<char> {
    "\""@ + s + "\""@
}

/// The items of a sequence clause, quoted and comma-separated.
pub open spec fn joined_items(items: Seq<Seq<char>>) -> Seq<char>
    decreases items.len(),
{
    if items.len() == 0 {
        Seq::empty()
    } else if items.len() == 1 {
        quoted_item(items[0])
    } else {
        quoted_item(items[0]) + ", "@ + joined_items(items.drop_first())
    }
}

/// One sequence clause: its own bracketed line when the sequence holds at
/// least one item, nothing at all when it is empty.
pub open spec fn seq_clause(key: Seq<char>, items: Seq<Seq<char>>) -> Seq<char> {
    if items.len() == 0 {
        Seq::empty()
    } else {
        "\t"@ + key + "=["@ + joined_items(items) + "], \n"@
    }
}

/// The `fap_version` clause: an unquoted token pair when present, nothing at
/// all when absent — no default pair ever appears in the text.
pub open spec fn version_clause(v: Option<(Seq<char>, Seq<char>)>) -> Seq<char> {
    match v {
        Some(p) => "\tfap_version=("@ + p.0 + ","@ + p.1 + "), \n"@,
        None => Seq::empty(),
    }
}

/// The whole canonical block: header, the two mandatory lines, the optional
/// clauses in their fixed order, footer.
pub open spec fn spec_render(p: ProjectionView) -> Seq<char> {
    header_text() + appid_clause(p.appid) + apptype_clause(p.apptype) + scalar_clause(
        "name"@,
        p.name,
    ) + uint_clause("stack_size"@, p.stack_size) + scalar_clause("icon"@, p.icon) + scalar_clause(
        "entry_point"@,
        p.entry_point,
    ) + int_clause("order"@, p.order) + seq_clause("sources"@, p.sources) + seq_clause(
        "flags"@,
        p.flags,
    ) + seq_clause("cdefines"@, p.cdefines) + seq_clause("requires"@, p.requires_list) + seq_clause(
        "conflicts"@,
        p.conflicts,
    ) + seq_clause("provides"@, p.provides) + seq_clause("sdk_headers"@, p.sdk_headers)
        + seq_clause("fap_libs"@, p.fap_libs) + version_clause(p.fap_version) + scalar_clause(
        "fap_icon"@,
        p.fap_icon,
    ) + scalar_clause("fap_category"@, p.fap_category) + scalar_clause(
        "fap_description"@,
        p.fap_description,
    ) + scalar_clause("fap_author"@, p.fap_author) + scalar_clause("fap_weburl"@, p.fap_weburl)
        + footer_text()
}

/// Rendering is deterministic, and therefore idempotent: any two renders of
/// one projection yield the same text, character for character.
pub proof fn lemma_render_deterministic(p1: ProjectionView, p2: ProjectionView)
    requires
        p1 == p2,
    ensures
        spec_render(p1) == spec_render(p2),
{
}

/// A sequence field holding zero items is never emitted: its clause is no
/// text at all, whatever the key.
pub proof fn lemma_empty_sequence_omitted(key: Seq<char>, items: Seq<Seq<char>>)
    requires
        items.len() == 0,
    ensures
        seq_clause(key, items) == Seq::<char>::empty(),
{
}

/// An absent optional scalar field is never emitted: its clause is no text
/// at all, whatever the key.
pub proof fn lemma_absent_scalar_omitted(key: Seq<char>, v: Option<Seq<char>>)
    requires
        v is None,
    ensures
        scalar_clause(key, v) == Seq::<char>::empty(),
{
}

/// An absent version pair is never emitted: its clause is no text at all, so
/// no implicit default pair ever appears in the rendered block.
pub proof fn lemma_absent_version_omitted(v: Option<(Seq<char>, Seq<char>)>)
    requires
        v is None,
    ensures
        version_clause(v) == Seq::<char>::empty(),
{
}

/// A projection with every optional field absent and every sequence empty
/// renders to the bare block: the header comment, the two mandatory lines,
/// and the closing parenthesis — nothing else.
pub proof fn lemma_bare_render(p: ProjectionView)
    requires
        p.name is None,
        p.stack_size is None,
        p.icon is None,
        p.entry_point is None,
        p.order is None,
        p.sources.len() == 0,
        p.flags.len() == 0,
        p.cdefines.len() == 0,
        p.requires_list.len() == 0,
        p.conflicts.len() == 0,
        p.provides.len() == 0,
        p.sdk_headers.len() == 0,
        p.fap_libs.len() == 0,
        p.fap_version is None,
        p.fap_icon is None,
        p.fap_category is None,
        p.fap_description is None,
        p.fap_author is None,
        p.fap_weburl is None,
    ensures
        spec_render(p) == header_text() + appid_clause(p.appid) + apptype_clause(p.apptype)
            + footer_text(),
{
    assert(spec_render(p) =~= header_text() + appid_clause(p.appid) + apptype_clause(p.apptype)
        + footer_text());
}

fn push_opt_str(out: &mut String, v: &Option<String>)
    ensures
        final(out)@ == old(out)@ + opt_or_empty(v.deep_view()),
{
    match v {
        Some(s) => out.append(s.as_str()),
        None => {
            proof {
                assert(final(out)@ =~= old(out)@ + Seq::<char>::empty());
            }
        },
    }
}

fn push_appid(out: &mut String, v: &Option<String>)
    ensures
        final(out)@ == old(out)@ + appid_clause(v.deep_view()),
{
    out.append("\tappid=\"");
    push_opt_str(out, v);
    out.append("\",\n");
    proof {
        assert(final(out)@ =~= old(out)@ + appid_clause(v.deep_view()));
    }
}

fn push_apptype(out: &mut String, v: &Option<String>)
    ensures
        final(out)@ == old(out)@ + apptype_clause(v.deep_view()),
{
    out.append("\tapptype=");
    push_opt_str(out, v);
    out.append(",\n");
    proof {
        assert(final(out)@ =~= old(out)@ + apptype_clause(v.deep_view()));
    }
}

fn push_scalar_clause(out: &mut String, key: &str, v: &Option<String>)
    ensures
        final(out)@ == old(out)@ + scalar_clause(key@, v.deep_view()),
{
    match v {
        Some(s) => {
            out.append("\t");
            out.append(key);
            out.append("=\"");
            out.append(s.as_str());
            out.append("\", \n");
            proof {
                assert(final(out)@ =~= old(out)@ + scalar_clause(key@, v.deep_view()));
            }
        },
        None => {
            proof {
                assert(final(out)@ =~= old(out)@ + scalar_clause(key@, v.deep_view()));
            }
        },
    }
}

fn push_uint_clause(out: &mut String, key: &str, v: &Option<u64>)
    ensures
        final(out)@ == old(out)@ + uint_clause(key@, *v),
{
    match v {
        Some(n) => {
            out.append("\t");
            out.append(key);
            out.append("=");
            push_uint(out, *n);
            out.append(", \n");
            proof {
                assert(final(out)@ =~= old(out)@ + uint_clause(key@, *v));
            }
        },
        None => {
            proof {
                assert(final(out)@ =~= old(out)@ + uint_clause(key@, *v));
            }
        },
    }
}

fn push_int_clause(out: &mut String, key: &str, v: &Option<i64>)
    ensures
        final(out)@ == old(out)@ + int_clause(key@, *v),
{
    match v {
        Some(n) => {
            out.append("\t");
            out.append(key);
            out.append("=");
            push_int(out, *n);
            out.append(", \n");
            proof {
                assert(final(out)@ =~= old(out)@ + int_clause(key@, *v));
            }
        },
        None => {
            proof {
                assert(final(out)@ =~= old(out)@ + int_clause(key@, *v));
            }
        },
    }
}

fn push_items(out: &mut String, items: &Vec<String>, i: usize)
    requires
        i < items.len(),
    ensures
        final(out)@ == old(out)@ + joined_items(items.deep_view().skip(i as int)),
    decreases items.len() - i,
{
    proof {
        assert(items.deep_view().skip(i as int)[0] == items.deep_view()[i as int]);
    }
    out.append("\"");
    out.append(items[i].as_str());
    out.append("\"");
    if i + 1 < items.len() {
        out.append(", ");
        push_items(out, items, i + 1);
        proof {
            assert(items.deep_view().skip(i as int).drop_first() =~= items.deep_view().skip(
                i as int + 1,
            ));
            assert(final(out)@ =~= old(out)@ + joined_items(items.deep_view().skip(i as int)));
        }
    } else {
        proof {
            assert(items.deep_view().skip(i as int).len() == 1);
            assert(final(out)@ =~= old(out)@ + joined_items(items.deep_view().skip(i as int)));
        }
    }
}

fn push_seq_clause(out: &mut String, key: &str, items: &Vec<String>)
    ensures
        final(out)@ == old(out)@ + seq_clause(key@, items.deep_view()),
{
    if items.len() == 0 {
        proof {
            assert(final(out)@ =~= old(out)@ + seq_clause(key@, items.deep_view()));
        }
        return ;
    }
    out.append("\t");
    out.append(key);
    out.append("=[");
    push_items(out, items, 0);
    out.append("], \n");
    proof {
        assert(items.deep_view().skip(0) =~= items.deep_view());
        assert(final(out)@ =~= old(out)@ + seq_clause(key@, items.deep_view()));
    }
}

fn push_version_clause(out: &mut String, v: &Option<(String, String)>)
    ensures
        final(out)@ == old(out)@ + version_clause(v.deep_view()),
{
    match v {
        Some(p) => {
            out.append("\tfap_version=(");
            out.append(p.0.as_str());
            out.append(",");
            out.append(p.1.as_str());
            out.append("), \n");
            proof {
                assert(final(out)@ =~= old(out)@ + version_clause(v.deep_view()));
            }
        },
        None => {
            proof {
                assert(final(out)@ =~= old(out)@ + version_clause(v.deep_view()));
            }
        },
    }
}

/// Renders one projection into the canonical text block. Rendering is a pure
/// function of the projection: the result is pinned, character by character,
/// by the output grammar.
pub fn render_projection(p: &Projection) -> (r: String)
    ensures
        r@ == spec_render(p@),
{
    let mut out = String::new();
    out.append("App(\n\t# Automatically generated by `fam` crate.\n");
    push_appid(&mut out, &p.appid);
    push_apptype(&mut out, &p.apptype);
    push_scalar_clause(&mut out, "name", &p.name);
    push_uint_clause(&mut out, "stack_size", &p.stack_size);
    push_scalar_clause(&mut out, "icon", &p.icon);
    push_scalar_clause(&mut out, "entry_point", &p.entry_point);
    push_int_clause(&mut out, "order", &p.order);
    push_seq_clause(&mut out, "sources", &p.sources);
    push_seq_clause(&mut out, "flags", &p.flags);
    push_seq_clause(&mut out, "cdefines", &p.cdefines);
    push_seq_clause(&mut out, "requires", &p.requires_list);
    push_seq_clause(&mut out, "conflicts", &p.conflicts);
    push_seq_clause(&mut out, "provides", &p.provides);
    push_seq_clause(&mut out, "sdk_headers", &p.sdk_headers);
    push_seq_clause(&mut out, "fap_libs", &p.fap_libs);
    push_version_clause(&mut out, &p.fap_version);
    push_scalar_clause(&mut out, "fap_icon", &p.fap_icon);
    push_scalar_clause(&mut out, "fap_category", &p.fap_category);
    push_scalar_clause(&mut out, "fap_description", &p.fap_description);
    push_scalar_clause(&mut out, "fap_author", &p.fap_author);
    push_scalar_clause(&mut out, "fap_weburl", &p.fap_weburl);
    out.append(")\n");
    proof {
        assert(out@ =~= spec_render(p@));
    }
    out
}

} // verus!
