//! An item page of the codex, read as a whole.

use vstd::prelude::*;

use crate::codex::html_item_lists::{
    icon_of, img_ok, parse_causes, parse_cures, parse_dropped_by, parse_gives, parse_immunities,
    parse_upgrade_materials, siblings_ok, spec_gives, spec_icon, spec_name_icon_list,
    spec_name_uri_icon_list, ImgNode, SiblingNode,
};
use crate::codex::html_item_parser::{
    empty_stats, item_section, meta_fold, default_meta, new_stats, parse_ability, parse_codex_page_meta,
    parse_stats, spec_item_section, spec_parse_ability, stats_fold, stats_ok, string_seq_view,
    AbilityNode, CodexMetaView, ItemSection, MetaNode, StatsView,
};
use crate::codex::item::{Cause, Cure, DroppedBy, Give, Immunity, Item, Place, UpgradeMaterial};
use crate::error::{fails_with, html_error, Error, Failure, Kind};
use crate::guide::html_utils::{parse_tags, spec_parse_tags, Tag};
use crate::text::{concat2, spec_trim, string_views, to_owned};

verus! {

/// An `h4` heading of an item page and the elements that follow it.
#[derive(Debug, Clone)]
pub struct ItemSectionNode {
    /// The text of the heading.
    pub heading: String,
    /// The elements after the heading, in order.
    pub siblings: Vec<SiblingNode>,
}

/// An item page of the codex, as read from its HTML.
#[derive(Debug)]
pub struct ItemPage {
    /// The text of the page's `.herotext`, trimmed.
    pub name: String,
    /// The image of the page's `.codex-page-icon`.
    pub icon: ImgNode,
    /// The `.codex-page-description` nodes, in order: the first holds the description,
    /// the second, if any, the ability.
    pub descriptions: Vec<AbilityNode>,
    /// The `.codex-page-meta` nodes, in order.
    pub meta: Vec<MetaNode>,
    /// The texts of the stats of the `.codex-stats` node, when the page has one.
    pub stats: Option<Vec<String>>,
    /// The texts of the `.codex-page-tag` nodes, in order.
    pub tags: Vec<String>,
    /// The `h4` headings of the page, in order.
    pub sections: Vec<ItemSectionNode>,
}

/// The lists of the sections of an item page.
pub struct SectionsView {
    pub causes: Seq<(Seq<char>, Seq<char>)>,
    pub gives: Seq<(Seq<char>, int, Seq<char>)>,
    pub cures: Seq<(Seq<char>, Seq<char>)>,
    pub immunities: Seq<(Seq<char>, Seq<char>)>,
    pub dropped_by: Seq<(Seq<char>, Seq<char>, Seq<char>)>,
    pub upgrade_materials: Seq<(Seq<char>, Seq<char>, Seq<char>)>,
}

/// No section read yet: every list empty.
pub open spec fn no_sections() -> SectionsView {
    SectionsView {
        causes: Seq::empty(),
        gives: Seq::empty(),
        cures: Seq::empty(),
        immunities: Seq::empty(),
        dropped_by: Seq::empty(),
        upgrade_materials: Seq::empty(),
    }
}

/// The lists after reading one more section: the list of the section's kind is
/// replaced by what the section holds.
pub open spec fn section_step(v: SectionsView, s: ItemSectionNode) -> Result<SectionsView, Failure> {
    let h = spec_trim(s.heading@);
    match spec_item_section(h) {
        None => Err(Failure::Html("Unexpected h4: \""@ + h + "\""@)),
        Some(ItemSection::Causes) => match spec_name_icon_list(s.siblings@, 0) {
            Ok(l) => Ok(SectionsView { causes: l, ..v }),
            Err(f) => Err(f),
        },
        Some(ItemSection::Gives) => match spec_gives(s.siblings@, 0) {
            Ok(l) => Ok(SectionsView { gives: l, ..v }),
            Err(f) => Err(f),
        },
        Some(ItemSection::Cures) => match spec_name_icon_list(s.siblings@, 0) {
            Ok(l) => Ok(SectionsView { cures: l, ..v }),
            Err(f) => Err(f),
        },
        Some(ItemSection::Immunities) => match spec_name_icon_list(s.siblings@, 0) {
            Ok(l) => Ok(SectionsView { immunities: l, ..v }),
            Err(f) => Err(f),
        },
        Some(ItemSection::DroppedBy) => match spec_name_uri_icon_list(s.siblings@, 0) {
            Ok(l) => Ok(SectionsView { dropped_by: l, ..v }),
            Err(f) => Err(f),
        },
        Some(ItemSection::UpgradeMaterials) => match spec_name_uri_icon_list(s.siblings@, 0) {
            Ok(l) => Ok(SectionsView { upgrade_materials: l, ..v }),
            Err(f) => Err(f),
        },
    }
}

/// The lists that the sections give, or why the first that fails does not give one.
pub open spec fn sections_fold(sections: Seq<ItemSectionNode>) -> Result<SectionsView, Failure>
    decreases sections.len(),
{
    if sections.len() == 0 {
        Ok(no_sections())
    } else {
        match sections_fold(sections.drop_last()) {
            Err(f) => Err(f),
            Ok(v) => section_step(v, sections.last()),
        }
    }
}

/// The stats of the item once the place from the page meta is set in them.
pub open spec fn merged_stats(stats: Option<StatsView>, place: Option<Place>) -> Option<StatsView> {
    match place {
        None => stats,
        Some(p) => match stats {
            Some(s) => Some(StatsView { place: Some(p), ..s }),
            None => Some(StatsView { place: Some(p), ..empty_stats() }),
        },
    }
}

/// What an item page holds, read: the name, the meta, the tags, the description, the
/// stats, the lists of the sections, the icon and the ability; or why reading fails.
pub struct ItemPageView {
    pub name: Seq<char>,
    pub meta: CodexMetaView,
    pub tags: Seq<Tag>,
    pub description: Seq<char>,
    pub stats: Option<StatsView>,
    pub sections: SectionsView,
    pub icon: Seq<char>,
    pub ability: Option<(Seq<char>, Seq<char>)>,
}

/// The stats texts of the page read, or why they fail.
pub open spec fn page_stats(page: ItemPage) -> Result<Option<StatsView>, Failure> {
    match page.stats {
        None => Ok(None),
        Some(t) => match stats_fold(empty_stats(), string_seq_view(t@)) {
            Ok(v) => Ok(Some(v)),
            Err(f) => Err(f),
        },
    }
}

/// The ability node of the page read, or why it fails.
pub open spec fn page_ability(page: ItemPage) -> Result<Option<(Seq<char>, Seq<char>)>, Failure> {
    if page.descriptions@.len() > 1 {
        match spec_parse_ability(page.descriptions@[1]) {
            Ok(a) => Ok(Some(a)),
            Err(f) => Err(f),
        }
    } else {
        Ok(None)
    }
}

/// The item page read, each part in the order the page is read, or the failure of the
/// first part that fails.
pub open spec fn spec_item_page(page: ItemPage) -> Result<ItemPageView, Failure> {
    match meta_fold(default_meta(), page.meta@) {
        Err(f) => Err(f),
        Ok(meta) => match spec_parse_tags(string_views(page.tags@)) {
            Err(m) => Err(Failure::Html(m)),
            Ok(tags) => if page.descriptions@.len() == 0 {
                Err(Failure::Html("Failed to find description"@))
            } else {
                match page_stats(page) {
                    Err(f) => Err(f),
                    Ok(stats) => match sections_fold(page.sections@) {
                        Err(f) => Err(f),
                        Ok(sections) => match spec_icon(
                            page.icon,
                            "Failed to find \"img\" in icon-node"@,
                            "Failed to find src in img icon node"@,
                        ) {
                            Err(f) => Err(f),
                            Ok(icon) => match page_ability(page) {
                                Err(f) => Err(f),
                                Ok(ability) => Ok(
                                    ItemPageView {
                                        name: page.name@,
                                        meta,
                                        tags,
                                        description: page.descriptions@[0].text@,
                                        stats: merged_stats(stats, meta.place),
                                        sections,
                                        icon,
                                        ability,
                                    },
                                ),
                            },
                        },
                    },
                }
            },
        },
    }
}

/// An item page with one section: the list of the section's heading (`Causes:`,
/// `Cures:`, `Immunities:`, `Gives:`, `Dropped by:`, `Upgrade materials:`) is what the
/// item holds of that kind, read from the elements under the heading, and every other
/// list of the item is empty.
pub proof fn law_item_section_lists(page: ItemPage, slug: Seq<char>, item: Item, v: ItemPageView)
    requires
        spec_item_page(page) == Ok::<ItemPageView, Failure>(v),
        item_of_page(item, slug, v),
        page.sections@.len() == 1,
    ensures
        ({
            let s = page.sections@[0];
            let h = spec_trim(s.heading@);
            let causes = item.causes@.map_values(|x: Cause| (x.name@, x.icon@));
            let cures = item.cures@.map_values(|x: Cure| (x.name@, x.icon@));
            let immunities = item.immunities@.map_values(|x: Immunity| (x.name@, x.icon@));
            let gives = item.gives@.map_values(|g: Give| (g.name@, g.chance as int, g.icon@));
            let dropped = item.dropped_by@.map_values(|x: DroppedBy| (x.name@, x.uri@, x.icon@));
            let materials = item.upgrade_materials@.map_values(|x: UpgradeMaterial| (x.name@, x.uri@, x.icon@));
            &&& h == "Causes:"@ ==> spec_name_icon_list(s.siblings@, 0) == Ok::<Seq<(Seq<char>, Seq<char>)>, Failure>(causes)
                && cures.len() == 0 && immunities.len() == 0 && gives.len() == 0 && dropped.len() == 0 && materials.len() == 0
            &&& h == "Cures:"@ ==> spec_name_icon_list(s.siblings@, 0) == Ok::<Seq<(Seq<char>, Seq<char>)>, Failure>(cures)
                && causes.len() == 0 && immunities.len() == 0 && gives.len() == 0 && dropped.len() == 0 && materials.len() == 0
            &&& h == "Immunities:"@ ==> spec_name_icon_list(s.siblings@, 0) == Ok::<Seq<(Seq<char>, Seq<char>)>, Failure>(
                immunities,
            ) && causes.len() == 0 && cures.len() == 0 && gives.len() == 0 && dropped.len() == 0 && materials.len() == 0
            &&& h == "Gives:"@ ==> spec_gives(s.siblings@, 0) == Ok::<Seq<(Seq<char>, int, Seq<char>)>, Failure>(gives)
                && causes.len() == 0 && cures.len() == 0 && immunities.len() == 0 && dropped.len() == 0 && materials.len() == 0
            &&& h == "Dropped by:"@ ==> spec_name_uri_icon_list(s.siblings@, 0) == Ok::<
                Seq<(Seq<char>, Seq<char>, Seq<char>)>,
                Failure,
            >(dropped) && causes.len() == 0 && cures.len() == 0 && immunities.len() == 0 && gives.len() == 0
                && materials.len() == 0
            &&& h == "Upgrade materials:"@ ==> spec_name_uri_icon_list(s.siblings@, 0) == Ok::<
                Seq<(Seq<char>, Seq<char>, Seq<char>)>,
                Failure,
            >(materials) && causes.len() == 0 && cures.len() == 0 && immunities.len() == 0 && gives.len() == 0
                && dropped.len() == 0
        }),
{
    reveal_strlit("Causes:");
    reveal_strlit("Gives:");
    reveal_strlit("Cures:");
    reveal_strlit("Immunities:");
    reveal_strlit("Dropped by:");
    reveal_strlit("Upgrade materials:");
    assert("Causes:"@.len() == 7);
    assert("Causes:"@[0] == 'C');
    assert("Gives:"@.len() == 6);
    assert("Gives:"@[0] == 'G');
    assert("Cures:"@.len() == 6);
    assert("Cures:"@[0] == 'C');
    assert("Immunities:"@.len() == 11);
    assert("Immunities:"@[0] == 'I');
    assert("Dropped by:"@.len() == 11);
    assert("Dropped by:"@[0] == 'D');
    assert("Upgrade materials:"@.len() == 18);
    assert("Upgrade materials:"@[0] == 'U');
    assert(page.sections@.drop_last() =~= Seq::<ItemSectionNode>::empty());
    assert(sections_fold(Seq::<ItemSectionNode>::empty()) == Ok::<SectionsView, Failure>(no_sections()));
    assert(sections_fold(page.sections@.drop_last()) == Ok::<SectionsView, Failure>(no_sections()));
    assert(page.sections@.last() == page.sections@[0]);
    assert(sections_fold(page.sections@) == Ok::<SectionsView, Failure>(v.sections));
    assert(sections_fold(page.sections@) == section_step(no_sections(), page.sections@[0]));
}

/// Reading the page does not panic: the stats texts, the lists and the icon are
/// readable.
pub open spec fn page_ok(page: ItemPage) -> bool {
    &&& page.stats matches Some(t) ==> stats_ok(string_seq_view(t@))
    &&& forall|i: int|
        0 <= i < page.sections@.len() ==> #[trigger] siblings_ok(page.sections@[i].siblings@)
    &&& img_ok(page.icon)
}

/// `item` holds what the page holds, with the slug.
pub open spec fn item_of_page(item: Item, slug: Seq<char>, v: ItemPageView) -> bool {
    &&& item.slug@ == slug
    &&& item.name@ == v.name
    &&& item.description@ == v.description
    &&& item.tier == v.meta.tier
    &&& item.icon@ == v.icon
    &&& item.tags@ == v.tags
    &&& match v.stats {
        Some(s) => item.stats matches Some(x) && x@ == s,
        None => item.stats is None,
    }
    &&& match v.ability {
        Some((n, d)) => item.ability matches Some(a) && a.name@ == n && a.description@ == d,
        None => item.ability is None,
    }
    &&& item.causes@.map_values(|x: Cause| (x.name@, x.icon@)) == v.sections.causes
    &&& item.gives@.map_values(|g: Give| (g.name@, g.chance as int, g.icon@)) == v.sections.gives
    &&& item.cures@.map_values(|x: Cure| (x.name@, x.icon@)) == v.sections.cures
    &&& item.immunities@.map_values(|x: Immunity| (x.name@, x.icon@)) == v.sections.immunities
    &&& item.dropped_by@.map_values(|x: DroppedBy| (x.name@, x.uri@, x.icon@)) == v.sections.dropped_by
    &&& item.upgrade_materials@.map_values(|x: UpgradeMaterial| (x.name@, x.uri@, x.icon@))
        == v.sections.upgrade_materials
}

/// The lists of the sections being read.
struct SectionLists {
    causes: Vec<Cause>,
    gives: Vec<Give>,
    cures: Vec<Cure>,
    immunities: Vec<Immunity>,
    dropped_by: Vec<DroppedBy>,
    upgrade_materials: Vec<UpgradeMaterial>,
}

impl View for SectionLists {
    type V = SectionsView;

    closed spec fn view(&self) -> SectionsView {
        SectionsView {
            causes: self.causes@.map_values(|x: Cause| (x.name@, x.icon@)),
            gives: self.gives@.map_values(|g: Give| (g.name@, g.chance as int, g.icon@)),
            cures: self.cures@.map_values(|x: Cure| (x.name@, x.icon@)),
            immunities: self.immunities@.map_values(|x: Immunity| (x.name@, x.icon@)),
            dropped_by: self.dropped_by@.map_values(|x: DroppedBy| (x.name@, x.uri@, x.icon@)),
            upgrade_materials: self.upgrade_materials@.map_values(
                |x: UpgradeMaterial| (x.name@, x.uri@, x.icon@),
            ),
        }
    }
}

/// Once a section fails, the sections that follow do not change the failure.
proof fn lemma_sections_err_sticks(sections: Seq<ItemSectionNode>, k: int, n: int)
    requires
        0 < k <= n <= sections.len(),
        sections_fold(sections.take(k)) is Err,
    ensures
        sections_fold(sections.take(n)) == sections_fold(sections.take(k)),
    decreases n - k,
{
    if k < n {
        lemma_sections_err_sticks(sections, k, n - 1);
        assert(sections.take(n).drop_last() =~= sections.take(n - 1));
    }
}

/// Read the sections of the page, one after the other.
fn read_sections(sections: &Vec<ItemSectionNode>) -> (r: Result<SectionLists, Error>)
    requires
        forall|i: int| 0 <= i < sections@.len() ==> #[trigger] siblings_ok(sections@[i].siblings@),
    ensures
        match r {
            Ok(l) => sections_fold(sections@) == Ok::<SectionsView, Failure>(l@),
            Err(e) => fails_with(e, sections_fold(sections@)),
        },
{
    let mut lists = SectionLists {
        causes: Vec::new(),
        gives: Vec::new(),
        cures: Vec::new(),
        immunities: Vec::new(),
        dropped_by: Vec::new(),
        upgrade_materials: Vec::new(),
    };
    proof {
        assert(lists@.causes =~= Seq::empty());
        assert(lists@.gives =~= Seq::empty());
        assert(lists@.cures =~= Seq::empty());
        assert(lists@.immunities =~= Seq::empty());
        assert(lists@.dropped_by =~= Seq::empty());
        assert(lists@.upgrade_materials =~= Seq::empty());
        assert(sections@.take(0) =~= Seq::empty());
    }
    let mut i: usize = 0;
    while i < sections.len()
        invariant
            i <= sections@.len(),
            forall|k: int| 0 <= k < sections@.len() ==> #[trigger] siblings_ok(sections@[k].siblings@),
            sections_fold(sections@.take(i as int)) == Ok::<SectionsView, Failure>(lists@),
        decreases sections.len() - i,
    {
        proof {
            assert(sections@.take(i + 1).drop_last() =~= sections@.take(i as int));
            assert(sections@.take(i + 1).last() == sections@[i as int]);
        }
        let s = &sections[i];
        assert(siblings_ok(sections@[i as int].siblings@));
        let kind = match item_section(s.heading.as_str()) {
            Ok(k) => k,
            Err(e) => {
                proof {
                    lemma_sections_err_sticks(sections@, i + 1, sections@.len() as int);
                    assert(sections@.take(sections@.len() as int) =~= sections@);
                }
                return Err(e);
            },
        };
        let step: Result<(), Error> = match kind {
            ItemSection::Causes => match parse_causes(&s.siblings) {
                Ok(l) => {
                    lists.causes = l;
                    Ok(())
                },
                Err(e) => Err(e),
            },
            ItemSection::Gives => match parse_gives(&s.siblings) {
                Ok(l) => {
                    lists.gives = l;
                    Ok(())
                },
                Err(e) => Err(e),
            },
            ItemSection::Cures => match parse_cures(&s.siblings) {
                Ok(l) => {
                    lists.cures = l;
                    Ok(())
                },
                Err(e) => Err(e),
            },
            ItemSection::Immunities => match parse_immunities(&s.siblings) {
                Ok(l) => {
                    lists.immunities = l;
                    Ok(())
                },
                Err(e) => Err(e),
            },
            ItemSection::DroppedBy => match parse_dropped_by(&s.siblings) {
                Ok(l) => {
                    lists.dropped_by = l;
                    Ok(())
                },
                Err(e) => Err(e),
            },
            ItemSection::UpgradeMaterials => match parse_upgrade_materials(&s.siblings) {
                Ok(l) => {
                    lists.upgrade_materials = l;
                    Ok(())
                },
                Err(e) => Err(e),
            },
        };
        match step {
            Ok(()) => {},
            Err(e) => {
                proof {
                    lemma_sections_err_sticks(sections@, i + 1, sections@.len() as int);
                    assert(sections@.take(sections@.len() as int) =~= sections@);
                }
                return Err(e);
            },
        }
        i = i + 1;
    }
    assert(sections@.take(sections@.len() as int) =~= sections@);
    Ok(lists)
}

/// Read an item page of the codex: its meta, tags, description, stats (with the place
/// of the meta set in them), sections, icon and ability, in that order.
pub fn item_from_page(page: &ItemPage, slug: String) -> (r: Result<Item, Error>)
    requires
        page_ok(*page),
    ensures
        match spec_item_page(*page) {
            Ok(v) => r matches Ok(item) && item_of_page(item, slug@, v),
            Err(f) => r matches Err(e) && fails_with(e, Err::<(), Failure>(f)),
        },
{
    let meta = match parse_codex_page_meta(&page.meta) {
        Ok(m) => m,
        Err(e) => {
            return Err(e);
        },
    };
    let tags = match parse_tags(&page.tags) {
        Ok(t) => t,
        Err(e) => {
            return Err(e);
        },
    };
    if page.descriptions.len() == 0 {
        return Err(html_error(to_owned("Failed to find description")));
    }
    let description = to_owned(page.descriptions[0].text.as_str());
    let mut stats = match parse_stats(page.stats.as_ref()) {
        Ok(s) => s,
        Err(e) => {
            return Err(e);
        },
    };
    match meta.place {
        Some(place) => {
            match stats {
                Some(s) => {
                    let mut s = s;
                    s.place = Some(place);
                    stats = Some(s);
                },
                None => {
                    let mut s = new_stats();
                    s.place = Some(place);
                    stats = Some(s);
                },
            }
        },
        None => {},
    }
    let lists = match read_sections(&page.sections) {
        Ok(l) => l,
        Err(e) => {
            return Err(e);
        },
    };
    let icon = match icon_of(&page.icon, "Failed to find \"img\" in icon-node", "Failed to find src in img icon node") {
        Ok(i) => i,
        Err(e) => {
            return Err(e);
        },
    };
    let ability = if page.descriptions.len() > 1 {
        parse_ability(Some(&page.descriptions[1]))
    } else {
        parse_ability(None)
    };
    let ability = match ability {
        Ok(a) => a,
        Err(e) => {
            return Err(e);
        },
    };
    let SectionLists { causes, gives, cures, immunities, dropped_by, upgrade_materials } = lists;
    Ok(
        Item {
            slug,
            name: to_owned(page.name.as_str()),
            icon,
            description,
            tier: meta.tier,
            tags,
            stats,
            ability,
            causes,
            cures,
            gives,
            immunities,
            dropped_by,
            upgrade_materials,
        },
    )
}

/// `k` is the kind of error that reports the failure `f`.
pub open spec fn kind_fails(k: Kind, f: Failure) -> bool {
    match f {
        Failure::Int(i) => k == Kind::ParseIntError(i),
        Failure::Html(m) => k matches Kind::HTMLParsingError(x) && x@ == m,
        Failure::Enum(n, v) => k matches Kind::ParseEnumError(a, b) && a@ == n && b@ == "Invalid value: "@ + v,
    }
}

/// Parses an item page from `playorna.com` and returns the details about the given item;
/// an error says, in its context, which item it was reading.
pub fn parse_codex_item(page: &ItemPage, slug: &str) -> (r: Result<Item, Error>)
    requires
        page_ok(*page),
    ensures
        match spec_item_page(*page) {
            Ok(v) => r matches Ok(item) && item_of_page(item, slug@, v),
            Err(f) => r matches Err(e) && kind_fails(e.kind, f) && e.context@.len() == 1 && e.context@[0]@
                == "parsing "@ + slug@,
        },
{
    match item_from_page(page, to_owned(slug)) {
        Ok(item) => Ok(item),
        Err(e) => Err(e.ctx_push(concat2("parsing ", slug))),
    }
}

} // verus!
