use vstd::prelude::*;
use crate::json::{member, member_views, Json, JsonView, Member};
use crate::page::types::{parent_document, PageParent, PageParentView};
use crate::text::{option_view, views};
use crate::types::{icon_document, Cover, CoverView, Icon, IconView};

verus! {

/// The properties of a page that has a title and nothing else: the title
/// as one span of text, under the name `Name`.
pub open spec fn title_properties(title: Seq<char>) -> JsonView {
    JsonView::Object(
        seq![
            member(
                "Name"@,
                JsonView::Object(
                    seq![
                        member(
                            "title"@,
                            JsonView::Array(
                                seq![
                                    JsonView::Object(
                                        seq![
                                            member(
                                                "text"@,
                                                JsonView::Object(
                                                    seq![member("content"@, JsonView::Str(title))],
                                                ),
                                            ),
                                        ],
                                    ),
                                ],
                            ),
                        ),
                    ],
                ),
            ),
        ],
    )
}

/// The document of an icon, or `null` where there is none.
pub open spec fn icon_or_null(icon: Option<IconView>) -> JsonView {
    match icon {
        Some(icon) => icon_document(icon),
        None => JsonView::Null,
    }
}

/// The document of a cover, or `null` where there is none.
pub open spec fn cover_or_null(cover: Option<CoverView>) -> JsonView {
    match cover {
        Some(cover) => JsonView::Object(seq![member("type"@, JsonView::Str(cover.cover_type))]),
        None => JsonView::Null,
    }
}

/// The body that creates a page.
#[derive(Debug, PartialEq, Eq)]
pub struct PageCreateBody {
    parent: PageParent,
    properties: Json,
    icon: Option<Icon>,
    cover: Option<Cover>,
}

/// The mathematical value of a [`PageCreateBody`].
pub struct PageCreateBodyView {
    pub parent: PageParentView,
    pub properties: JsonView,
    pub icon: Option<IconView>,
    pub cover: Option<CoverView>,
}

impl View for PageCreateBody {
    type V = PageCreateBodyView;

    closed spec fn view(&self) -> PageCreateBodyView {
        PageCreateBodyView {
            parent: self.parent@,
            properties: self.properties@,
            icon: option_view(self.icon),
            cover: option_view(self.cover),
        }
    }
}

/// The document that is sent to create a page: `parent`, `properties`,
/// `icon` and `cover`, the last two `null` where there is none.
pub open spec fn create_document(body: PageCreateBodyView) -> JsonView {
    JsonView::Object(
        seq![
            member("parent"@, parent_document(body.parent)),
            member("properties"@, body.properties),
            member("icon"@, icon_or_null(body.icon)),
            member("cover"@, cover_or_null(body.cover)),
        ],
    )
}

impl PageCreateBody {
    /// The body that creates, under `parent`, a page with the given title
    /// and with neither icon nor cover.
    pub fn new(parent: PageParent, title: &str) -> (res: PageCreateBody)
        ensures
            res@ == (PageCreateBodyView {
                parent: parent@,
                properties: title_properties(title@),
                icon: None,
                cover: None,
            }),
    {
        let content = Json::object_of("content", Json::string(title));
        let span = Json::object_of("text", content);
        let mut spans: Vec<Json> = Vec::new();
        spans.push(span);
        assert(views(spans@) =~= seq![span@]);
        let name = Json::object_of("title", Json::array(spans));
        let properties = Json::object_of("Name", name);
        PageCreateBody { parent, properties, icon: None, cover: None }
    }

    /// The document that is sent to create the page.
    pub fn to_json(&self) -> (res: Json)
        ensures
            res@ == create_document(self@),
    {
        let icon = match &self.icon {
            Some(icon) => icon.to_json(),
            None => Json::Null,
        };
        let cover = match &self.cover {
            Some(cover) => cover.to_json(),
            None => Json::Null,
        };
        let mut members: Vec<Member> = Vec::new();
        members.push(Member::new("parent", self.parent.to_json()));
        members.push(Member::new("properties", self.properties.clone()));
        members.push(Member::new("icon", icon));
        members.push(Member::new("cover", cover));
        assert(member_views(members@) =~= create_document(self@)->Object_0);
        Json::object(members)
    }
}

/// The body that changes the properties of a page.
#[derive(Debug, PartialEq, Eq)]
pub struct PageUpdateBody {
    properties: Json,
}

impl View for PageUpdateBody {
    type V = JsonView;

    /// The properties to change, each with its new value.
    closed spec fn view(&self) -> JsonView {
        self.properties@
    }
}

impl PageUpdateBody {
    /// The body that changes the given properties, each named member to the
    /// value under it.
    pub fn new(properties: Json) -> (res: PageUpdateBody)
        ensures
            res@ == properties@,
    {
        PageUpdateBody { properties }
    }

    /// The document that is sent to change the page: the properties, under
    /// the name `properties`.
    pub fn to_json(&self) -> (res: Json)
        ensures
            res@ == JsonView::Object(seq![member("properties"@, self@)]),
    {
        Json::object_of("properties", self.properties.clone())
    }
}

} // verus!
