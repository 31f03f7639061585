//! The lists under the headings of an item page of the codex: drops, materials,
//! status effects.

use vstd::prelude::*;

use crate::codex::html_item_parser::{spec_split_status_chance, split_status_chance};
use crate::codex::item::{Cause, Cure, DroppedBy, Give, Immunity, UpgradeMaterial};
use crate::error::{fails_with, html_error, Error, Failure};
use crate::text::{concat2, to_owned};
use crate::utils::html::{icon_path, icon_url_to_path, url_path};

verus! {

/// An `img` element looked for in a node.
#[derive(Debug, Clone)]
pub enum ImgNode {
    /// The node holds no `img`.
    Missing,
    /// The `img` has no `src` attribute.
    NoSrc,
    /// The `src` of the `img`.
    Src(String),
}

/// An `a` element: its text, its `href` attribute if it has one, and the `img` in it.
#[derive(Debug, Clone)]
pub struct AnchorNode {
    /// The text of the element, trimmed.
    pub text: String,
    /// The `href` attribute of the element.
    pub href: Option<String>,
    /// The `img` in the element.
    pub img: ImgNode,
}

/// An element that follows a heading of the page.
#[derive(Debug, Clone)]
pub enum SiblingNode {
    /// An `h4` or `hr` element: the list under the heading ends there.
    End,
    /// A `div` element: its text, trimmed, the `img` in it, and the `a` in it if any.
    Div { text: String, img: ImgNode, anchor: Option<AnchorNode> },
    /// An element with another tag.
    Other { tag: String },
}

/// Reading the icon of the image does not panic: its source is an absolute URL.
pub open spec fn img_ok(img: ImgNode) -> bool {
    img matches ImgNode::Src(s) ==> url_path(s@) is Some
}

/// Reading the icons of the elements does not panic.
pub open spec fn siblings_ok(nodes: Seq<SiblingNode>) -> bool {
    forall|i: int|
        0 <= i < nodes.len() ==> match #[trigger] nodes[i] {
            SiblingNode::Div { img, anchor, .. } => img_ok(img) && (anchor matches Some(a) ==> img_ok(
                a.img,
            )),
            _ => true,
        }
}

/// The message for an element with an unknown tag.
pub open spec fn unknown_tag_message(tag: Seq<char>) -> Seq<char> {
    "Unknown node tag when parsing drop or ability: "@ + tag
}

/// The icon path of the image, or why there is none: `missing` when there is no
/// image, `no_src` when it has no source.
pub open spec fn spec_icon(img: ImgNode, missing: Seq<char>, no_src: Seq<char>) -> Result<Seq<char>, Failure> {
    match img {
        ImgNode::Missing => Err(Failure::Html(missing)),
        ImgNode::NoSrc => Err(Failure::Html(no_src)),
        ImgNode::Src(s) => Ok(icon_path(url_path(s@).unwrap())),
    }
}

/// The name, uri and icon of an `a` element.
pub open spec fn spec_anchor(a: AnchorNode) -> Result<(Seq<char>, Seq<char>, Seq<char>), Failure> {
    match a.href {
        None => Err(Failure::Html("Failed to find href in item <a>"@)),
        Some(h) => match spec_icon(a.img, "Failed to find \"img\" in item <a>"@, "Failed to find src in item <a> img"@) {
            Err(f) => Err(f),
            Ok(icon) => Ok((a.text@, h@, icon)),
        },
    }
}

/// The name, uri and icon of each `div` up to the end of the list, or why the first
/// that fails does not give them.
pub open spec fn spec_name_uri_icon_list(nodes: Seq<SiblingNode>, i: int) -> Result<
    Seq<(Seq<char>, Seq<char>, Seq<char>)>,
    Failure,
>
    decreases nodes.len() - i,
{
    if i < 0 || i >= nodes.len() {
        Ok(Seq::empty())
    } else {
        match nodes[i] {
            SiblingNode::End => Ok(Seq::empty()),
            SiblingNode::Other { tag } => Err(Failure::Html(unknown_tag_message(tag@))),
            SiblingNode::Div { anchor, .. } => match anchor {
                None => Err(Failure::Html("Failed to find \"a\" in div drop or ability"@)),
                Some(a) => match spec_anchor(a) {
                    Err(f) => Err(f),
                    Ok(x) => match spec_name_uri_icon_list(nodes, i + 1) {
                        Err(f) => Err(f),
                        Ok(rest) => Ok(seq![x] + rest),
                    },
                },
            },
        }
    }
}

/// The name and icon of each `div` up to the end of the list, or why the first that
/// fails does not give them.
pub open spec fn spec_name_icon_list(nodes: Seq<SiblingNode>, i: int) -> Result<
    Seq<(Seq<char>, Seq<char>)>,
    Failure,
>
    decreases nodes.len() - i,
{
    if i < 0 || i >= nodes.len() {
        Ok(Seq::empty())
    } else {
        match nodes[i] {
            SiblingNode::End => Ok(Seq::empty()),
            SiblingNode::Other { tag } => Err(Failure::Html(unknown_tag_message(tag@))),
            SiblingNode::Div { text, img, .. } => match spec_icon(
                img,
                "Failed to find \"img\" in item <a>"@,
                "Failed to find src in item <div> img"@,
            ) {
                Err(f) => Err(f),
                Ok(icon) => match spec_name_icon_list(nodes, i + 1) {
                    Err(f) => Err(f),
                    Ok(rest) => Ok(seq![(text@, icon)] + rest),
                },
            },
        }
    }
}

/// The icon path of the image.
pub(crate) fn icon_of(img: &ImgNode, missing: &str, no_src: &str) -> (r: Result<String, Error>)
    requires
        img_ok(*img),
    ensures
        match r {
            Ok(s) => spec_icon(*img, missing@, no_src@) == Ok::<Seq<char>, Failure>(s@),
            Err(e) => fails_with(e, spec_icon(*img, missing@, no_src@)),
        },
{
    match img {
        ImgNode::Missing => Err(html_error(to_owned(missing))),
        ImgNode::NoSrc => Err(html_error(to_owned(no_src))),
        ImgNode::Src(s) => Ok(icon_url_to_path(s.as_str())),
    }
}

/// Parse a `<a>` node to a `name`, `uri`, `icon` tuple.
pub fn a_to_name_uri_icon(a: &AnchorNode) -> (r: Result<(String, String, String), Error>)
    requires
        img_ok(a.img),
    ensures
        match r {
            Ok((n, u, i)) => spec_anchor(*a) == Ok::<(Seq<char>, Seq<char>, Seq<char>), Failure>(
                (n@, u@, i@),
            ),
            Err(e) => fails_with(e, spec_anchor(*a)),
        },
{
    let uri = match &a.href {
        Some(h) => to_owned(h.as_str()),
        None => {
            return Err(html_error(to_owned("Failed to find href in item <a>")));
        },
    };
    let icon = match icon_of(&a.img, "Failed to find \"img\" in item <a>", "Failed to find src in item <a> img") {
        Ok(i) => i,
        Err(e) => {
            return Err(e);
        },
    };
    Ok((to_owned(a.text.as_str()), uri, icon))
}

/// Parse a `<div>` node to a `name`, `icon` tuple.
pub fn div_to_name_icon(text: &str, img: &ImgNode) -> (r: Result<(String, String), Error>)
    requires
        img_ok(*img),
    ensures
        match r {
            Ok((n, i)) => spec_icon(*img, "Failed to find \"img\" in item <a>"@, "Failed to find src in item <div> img"@)
                == Ok::<Seq<char>, Failure>(i@) && n@ == text@,
            Err(e) => fails_with(
                e,
                spec_icon(*img, "Failed to find \"img\" in item <a>"@, "Failed to find src in item <div> img"@),
            ),
        },
{
    match icon_of(img, "Failed to find \"img\" in item <a>", "Failed to find src in item <div> img") {
        Ok(i) => Ok((to_owned(text), i)),
        Err(e) => Err(e),
    }
}

/// Parse a list of `name`, `uri`, `icon` tuples: the `div`s after a heading, up to
/// the next `h4` or `hr`.
pub fn parse_name_uri_icon_list(nodes: &Vec<SiblingNode>) -> (r: Result<Vec<(String, String, String)>, Error>)
    requires
        siblings_ok(nodes@),
    ensures
        match r {
            Ok(v) => spec_name_uri_icon_list(nodes@, 0) == Ok::<
                Seq<(Seq<char>, Seq<char>, Seq<char>)>,
                Failure,
            >(v@.map_values(|t: (String, String, String)| (t.0@, t.1@, t.2@))),
            Err(e) => fails_with(e, spec_name_uri_icon_list(nodes@, 0)),
        },
{
    let mut acc: Vec<(String, String, String)> = Vec::new();
    let mut i: usize = 0;
    while i < nodes.len()
        invariant
            i <= nodes@.len(),
            siblings_ok(nodes@),
            spec_name_uri_icon_list(nodes@, 0) == match spec_name_uri_icon_list(nodes@, i as int) {
                Ok(rest) => Ok(acc@.map_values(|t: (String, String, String)| (t.0@, t.1@, t.2@)) + rest),
                Err(f) => Err(f),
            },
        decreases nodes.len() - i,
    {
        let ghost views = acc@.map_values(|t: (String, String, String)| (t.0@, t.1@, t.2@));
        assert(views + Seq::<(Seq<char>, Seq<char>, Seq<char>)>::empty() =~= views);
        match &nodes[i] {
            SiblingNode::End => {
                return Ok(acc);
            },
            SiblingNode::Other { tag } => {
                return Err(html_error(concat2("Unknown node tag when parsing drop or ability: ", tag.as_str())));
            },
            SiblingNode::Div { anchor, .. } => match anchor {
                None => {
                    return Err(html_error(to_owned("Failed to find \"a\" in div drop or ability")));
                },
                Some(a) => {
                    assert(siblings_ok(nodes@) ==> match nodes@[i as int] {
                        SiblingNode::Div { img, anchor, .. } => img_ok(img) && (anchor matches Some(a) ==> img_ok(a.img)),
                        _ => true,
                    });
                    match a_to_name_uri_icon(a) {
                        Err(e) => {
                            return Err(e);
                        },
                        Ok(x) => {
                            let ghost xv = (x.0@, x.1@, x.2@);
                            acc.push(x);
                            proof {
                                let nv = acc@.map_values(|t: (String, String, String)| (t.0@, t.1@, t.2@));
                                assert(nv =~= views.push(xv));
                                match spec_name_uri_icon_list(nodes@, i + 1) {
                                    Ok(rest) => {
                                        assert(views + (seq![xv] + rest) =~= nv + rest);
                                    },
                                    Err(_) => {},
                                }
                            }
                        },
                    }
                },
            },
        }
        i = i + 1;
    }
    assert(acc@.map_values(|t: (String, String, String)| (t.0@, t.1@, t.2@)) + Seq::<
        (Seq<char>, Seq<char>, Seq<char>),
    >::empty() =~= acc@.map_values(|t: (String, String, String)| (t.0@, t.1@, t.2@)));
    Ok(acc)
}

/// Parse a list of `name`, `icon` tuples: the `div`s after a heading, up to the next
/// `h4` or `hr`.
pub fn parse_name_icon_list(nodes: &Vec<SiblingNode>) -> (r: Result<Vec<(String, String)>, Error>)
    requires
        siblings_ok(nodes@),
    ensures
        match r {
            Ok(v) => spec_name_icon_list(nodes@, 0) == Ok::<Seq<(Seq<char>, Seq<char>)>, Failure>(
                v@.map_values(|t: (String, String)| (t.0@, t.1@)),
            ),
            Err(e) => fails_with(e, spec_name_icon_list(nodes@, 0)),
        },
{
    let mut acc: Vec<(String, String)> = Vec::new();
    let mut i: usize = 0;
    while i < nodes.len()
        invariant
            i <= nodes@.len(),
            siblings_ok(nodes@),
            spec_name_icon_list(nodes@, 0) == match spec_name_icon_list(nodes@, i as int) {
                Ok(rest) => Ok(acc@.map_values(|t: (String, String)| (t.0@, t.1@)) + rest),
                Err(f) => Err(f),
            },
        decreases nodes.len() - i,
    {
        let ghost views = acc@.map_values(|t: (String, String)| (t.0@, t.1@));
        assert(views + Seq::<(Seq<char>, Seq<char>)>::empty() =~= views);
        match &nodes[i] {
            SiblingNode::End => {
                return Ok(acc);
            },
            SiblingNode::Other { tag } => {
                return Err(html_error(concat2("Unknown node tag when parsing drop or ability: ", tag.as_str())));
            },
            SiblingNode::Div { text, img, .. } => {
                assert(siblings_ok(nodes@) ==> match nodes@[i as int] {
                    SiblingNode::Div { img, anchor, .. } => img_ok(img) && (anchor matches Some(a) ==> img_ok(a.img)),
                    _ => true,
                });
                match div_to_name_icon(text.as_str(), img) {
                    Err(e) => {
                        return Err(e);
                    },
                    Ok(x) => {
                        let ghost xv = (x.0@, x.1@);
                        acc.push(x);
                        proof {
                            let nv = acc@.map_values(|t: (String, String)| (t.0@, t.1@));
                            assert(nv =~= views.push(xv));
                            match spec_name_icon_list(nodes@, i + 1) {
                                Ok(rest) => {
                                    assert(views + (seq![xv] + rest) =~= nv + rest);
                                },
                                Err(_) => {},
                            }
                        }
                    },
                }
            },
        }
        i = i + 1;
    }
    assert(acc@.map_values(|t: (String, String)| (t.0@, t.1@)) + Seq::<(Seq<char>, Seq<char>)>::empty()
        =~= acc@.map_values(|t: (String, String)| (t.0@, t.1@)));
    Ok(acc)
}

/// Parse causes from the list under its heading.
pub fn parse_causes(nodes: &Vec<SiblingNode>) -> (r: Result<Vec<Cause>, Error>)
    requires
        siblings_ok(nodes@),
    ensures
        match r {
            Ok(v) => spec_name_icon_list(nodes@, 0) == Ok::<Seq<(Seq<char>, Seq<char>)>, Failure>(
                v@.map_values(|x: Cause| (x.name@, x.icon@)),
            ),
            Err(e) => fails_with(e, spec_name_icon_list(nodes@, 0)),
        },
{
    let list = match parse_name_icon_list(nodes) {
        Ok(l) => l,
        Err(e) => {
            return Err(e);
        },
    };
    let mut r: Vec<Cause> = Vec::new();
    let mut i: usize = 0;
    while i < list.len()
        invariant
            i <= list@.len(),
            r@.map_values(|x: Cause| (x.name@, x.icon@)) == list@.take(i as int).map_values(
                |t: (String, String)| (t.0@, t.1@),
            ),
        decreases list.len() - i,
    {
        let ghost prev = r@;
        r.push(Cause { name: to_owned(list[i].0.as_str()), icon: to_owned(list[i].1.as_str()) });
        assert(r@.map_values(|x: Cause| (x.name@, x.icon@)) =~= prev.map_values(|x: Cause| (x.name@, x.icon@)).push((list@[i as int].0@, list@[i as int].1@)));
        assert(list@.take(i + 1).map_values(|t: (String, String)| (t.0@, t.1@)) =~= list@.take(i as int).map_values(|t: (String, String)| (t.0@, t.1@)).push((list@[i as int].0@, list@[i as int].1@)));
        i = i + 1;
    }
    assert(list@.take(list@.len() as int) =~= list@);
    Ok(r)
}

/// Parse cures from the list under its heading.
pub fn parse_cures(nodes: &Vec<SiblingNode>) -> (r: Result<Vec<Cure>, Error>)
    requires
        siblings_ok(nodes@),
    ensures
        match r {
            Ok(v) => spec_name_icon_list(nodes@, 0) == Ok::<Seq<(Seq<char>, Seq<char>)>, Failure>(
                v@.map_values(|x: Cure| (x.name@, x.icon@)),
            ),
            Err(e) => fails_with(e, spec_name_icon_list(nodes@, 0)),
        },
{
    let list = match parse_name_icon_list(nodes) {
        Ok(l) => l,
        Err(e) => {
            return Err(e);
        },
    };
    let mut r: Vec<Cure> = Vec::new();
    let mut i: usize = 0;
    while i < list.len()
        invariant
            i <= list@.len(),
            r@.map_values(|x: Cure| (x.name@, x.icon@)) == list@.take(i as int).map_values(
                |t: (String, String)| (t.0@, t.1@),
            ),
        decreases list.len() - i,
    {
        let ghost prev = r@;
        r.push(Cure { name: to_owned(list[i].0.as_str()), icon: to_owned(list[i].1.as_str()) });
        assert(r@.map_values(|x: Cure| (x.name@, x.icon@)) =~= prev.map_values(|x: Cure| (x.name@, x.icon@)).push((list@[i as int].0@, list@[i as int].1@)));
        assert(list@.take(i + 1).map_values(|t: (String, String)| (t.0@, t.1@)) =~= list@.take(i as int).map_values(|t: (String, String)| (t.0@, t.1@)).push((list@[i as int].0@, list@[i as int].1@)));
        i = i + 1;
    }
    assert(list@.take(list@.len() as int) =~= list@);
    Ok(r)
}

/// Parse immunities from the list under its heading.
pub fn parse_immunities(nodes: &Vec<SiblingNode>) -> (r: Result<Vec<Immunity>, Error>)
    requires
        siblings_ok(nodes@),
    ensures
        match r {
            Ok(v) => spec_name_icon_list(nodes@, 0) == Ok::<Seq<(Seq<char>, Seq<char>)>, Failure>(
                v@.map_values(|x: Immunity| (x.name@, x.icon@)),
            ),
            Err(e) => fails_with(e, spec_name_icon_list(nodes@, 0)),
        },
{
    let list = match parse_name_icon_list(nodes) {
        Ok(l) => l,
        Err(e) => {
            return Err(e);
        },
    };
    let mut r: Vec<Immunity> = Vec::new();
    let mut i: usize = 0;
    while i < list.len()
        invariant
            i <= list@.len(),
            r@.map_values(|x: Immunity| (x.name@, x.icon@)) == list@.take(i as int).map_values(
                |t: (String, String)| (t.0@, t.1@),
            ),
        decreases list.len() - i,
    {
        let ghost prev = r@;
        r.push(Immunity { name: to_owned(list[i].0.as_str()), icon: to_owned(list[i].1.as_str()) });
        assert(r@.map_values(|x: Immunity| (x.name@, x.icon@)) =~= prev.map_values(|x: Immunity| (x.name@, x.icon@)).push((list@[i as int].0@, list@[i as int].1@)));
        assert(list@.take(i + 1).map_values(|t: (String, String)| (t.0@, t.1@)) =~= list@.take(i as int).map_values(|t: (String, String)| (t.0@, t.1@)).push((list@[i as int].0@, list@[i as int].1@)));
        i = i + 1;
    }
    assert(list@.take(list@.len() as int) =~= list@);
    Ok(r)
}

/// Parse the monsters that drop the item from the list under its heading.
pub fn parse_dropped_by(nodes: &Vec<SiblingNode>) -> (r: Result<Vec<DroppedBy>, Error>)
    requires
        siblings_ok(nodes@),
    ensures
        match r {
            Ok(v) => spec_name_uri_icon_list(nodes@, 0) == Ok::<
                Seq<(Seq<char>, Seq<char>, Seq<char>)>,
                Failure,
            >(v@.map_values(|x: DroppedBy| (x.name@, x.uri@, x.icon@))),
            Err(e) => fails_with(e, spec_name_uri_icon_list(nodes@, 0)),
        },
{
    let list = match parse_name_uri_icon_list(nodes) {
        Ok(l) => l,
        Err(e) => {
            return Err(e);
        },
    };
    let mut r: Vec<DroppedBy> = Vec::new();
    let mut i: usize = 0;
    while i < list.len()
        invariant
            i <= list@.len(),
            r@.map_values(|x: DroppedBy| (x.name@, x.uri@, x.icon@)) == list@.take(i as int).map_values(
                |t: (String, String, String)| (t.0@, t.1@, t.2@),
            ),
        decreases list.len() - i,
    {
        let ghost prev = r@;
        r.push(
            DroppedBy {
                name: to_owned(list[i].0.as_str()),
                uri: to_owned(list[i].1.as_str()),
                icon: to_owned(list[i].2.as_str()),
            },
        );
        assert(r@.map_values(|x: DroppedBy| (x.name@, x.uri@, x.icon@)) =~= prev.map_values(|x: DroppedBy| (x.name@, x.uri@, x.icon@)).push((list@[i as int].0@, list@[i as int].1@, list@[i as int].2@)));
        assert(list@.take(i + 1).map_values(|t: (String, String, String)| (t.0@, t.1@, t.2@)) =~= list@.take(i as int).map_values(|t: (String, String, String)| (t.0@, t.1@, t.2@)).push((list@[i as int].0@, list@[i as int].1@, list@[i as int].2@)));
        i = i + 1;
    }
    assert(list@.take(list@.len() as int) =~= list@);
    Ok(r)
}

/// Parse upgrade materials from the list under its heading.
pub fn parse_upgrade_materials(nodes: &Vec<SiblingNode>) -> (r: Result<Vec<UpgradeMaterial>, Error>)
    requires
        siblings_ok(nodes@),
    ensures
        match r {
            Ok(v) => spec_name_uri_icon_list(nodes@, 0) == Ok::<
                Seq<(Seq<char>, Seq<char>, Seq<char>)>,
                Failure,
            >(v@.map_values(|x: UpgradeMaterial| (x.name@, x.uri@, x.icon@))),
            Err(e) => fails_with(e, spec_name_uri_icon_list(nodes@, 0)),
        },
{
    let list = match parse_name_uri_icon_list(nodes) {
        Ok(l) => l,
        Err(e) => {
            return Err(e);
        },
    };
    let mut r: Vec<UpgradeMaterial> = Vec::new();
    let mut i: usize = 0;
    while i < list.len()
        invariant
            i <= list@.len(),
            r@.map_values(|x: UpgradeMaterial| (x.name@, x.uri@, x.icon@)) == list@.take(i as int).map_values(
                |t: (String, String, String)| (t.0@, t.1@, t.2@),
            ),
        decreases list.len() - i,
    {
        let ghost prev = r@;
        r.push(
            UpgradeMaterial {
                name: to_owned(list[i].0.as_str()),
                uri: to_owned(list[i].1.as_str()),
                icon: to_owned(list[i].2.as_str()),
            },
        );
        assert(r@.map_values(|x: UpgradeMaterial| (x.name@, x.uri@, x.icon@)) =~= prev.map_values(|x: UpgradeMaterial| (x.name@, x.uri@, x.icon@)).push((list@[i as int].0@, list@[i as int].1@, list@[i as int].2@)));
        assert(list@.take(i + 1).map_values(|t: (String, String, String)| (t.0@, t.1@, t.2@)) =~= list@.take(i as int).map_values(|t: (String, String, String)| (t.0@, t.1@, t.2@)).push((list@[i as int].0@, list@[i as int].1@, list@[i as int].2@)));
        i = i + 1;
    }
    assert(list@.take(list@.len() as int) =~= list@);
    Ok(r)
}

/// The status effects the item gives, from each `div` up to the end of the list:
/// its text read as `Status (x%)` and its icon, or why the first that fails does not
/// give one.
pub open spec fn spec_gives(nodes: Seq<SiblingNode>, i: int) -> Result<Seq<(Seq<char>, int, Seq<char>)>, Failure>
    decreases nodes.len() - i,
{
    if i < 0 || i >= nodes.len() {
        Ok(Seq::empty())
    } else {
        match nodes[i] {
            SiblingNode::End => Ok(Seq::empty()),
            SiblingNode::Other { tag } => Err(Failure::Html(unknown_tag_message(tag@))),
            SiblingNode::Div { text, img, .. } => match spec_icon(
                img,
                "Failed to find \"img\" in item <a>"@,
                "Failed to find src in item <div> img"@,
            ) {
                Err(f) => Err(f),
                Ok(icon) => match spec_split_status_chance(text@) {
                    Err(f) => Err(f),
                    Ok((name, chance)) => match spec_gives(nodes, i + 1) {
                        Err(f) => Err(f),
                        Ok(rest) => Ok(seq![(name, chance, icon)] + rest),
                    },
                },
            },
        }
    }
}

/// Parse the status effects the item gives from the list under its heading.
pub fn parse_gives(nodes: &Vec<SiblingNode>) -> (r: Result<Vec<Give>, Error>)
    requires
        siblings_ok(nodes@),
    ensures
        match r {
            Ok(v) => spec_gives(nodes@, 0) == Ok::<Seq<(Seq<char>, int, Seq<char>)>, Failure>(
                v@.map_values(|g: Give| (g.name@, g.chance as int, g.icon@)),
            ),
            Err(e) => fails_with(e, spec_gives(nodes@, 0)),
        },
{
    let mut acc: Vec<Give> = Vec::new();
    let mut i: usize = 0;
    while i < nodes.len()
        invariant
            i <= nodes@.len(),
            siblings_ok(nodes@),
            spec_gives(nodes@, 0) == match spec_gives(nodes@, i as int) {
                Ok(rest) => Ok(acc@.map_values(|g: Give| (g.name@, g.chance as int, g.icon@)) + rest),
                Err(f) => Err(f),
            },
        decreases nodes.len() - i,
    {
        let ghost views = acc@.map_values(|g: Give| (g.name@, g.chance as int, g.icon@));
        assert(views + Seq::<(Seq<char>, int, Seq<char>)>::empty() =~= views);
        match &nodes[i] {
            SiblingNode::End => {
                return Ok(acc);
            },
            SiblingNode::Other { tag } => {
                return Err(html_error(concat2("Unknown node tag when parsing drop or ability: ", tag.as_str())));
            },
            SiblingNode::Div { text, img, .. } => {
                assert(siblings_ok(nodes@) ==> match nodes@[i as int] {
                    SiblingNode::Div { img, anchor, .. } => img_ok(img) && (anchor matches Some(a) ==> img_ok(a.img)),
                    _ => true,
                });
                let (t, icon) = match div_to_name_icon(text.as_str(), img) {
                    Err(e) => {
                        return Err(e);
                    },
                    Ok(x) => x,
                };
                let (name, chance) = match split_status_chance(t.as_str()) {
                    Err(e) => {
                        return Err(e);
                    },
                    Ok(x) => x,
                };
                let ghost xv = (name@, chance as int, icon@);
                acc.push(Give { name, chance, icon });
                proof {
                    let nv = acc@.map_values(|g: Give| (g.name@, g.chance as int, g.icon@));
                    assert(nv =~= views.push(xv));
                    match spec_gives(nodes@, i + 1) {
                        Ok(rest) => {
                            assert(views + (seq![xv] + rest) =~= nv + rest);
                        },
                        Err(_) => {},
                    }
                }
            },
        }
        i = i + 1;
    }
    assert(acc@.map_values(|g: Give| (g.name@, g.chance as int, g.icon@)) + Seq::<(Seq<char>, int, Seq<char>)>::empty()
        =~= acc@.map_values(|g: Give| (g.name@, g.chance as int, g.icon@)));
    Ok(acc)
}

} // verus!
