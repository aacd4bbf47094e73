use vstd::prelude::*;

verus! {

/// What kind of thing a resource is.
#[derive(Debug, Clone, Copy, PartialEq, Eq, Structural)]
pub enum Category {
    Game,
    Video,
    Remote,
    Music,
    Tool,
    Proxy,
    Development,
}

/// The platform a resource runs on.
#[derive(Debug, Clone, Copy, PartialEq, Eq, Structural)]
pub enum Platform {
    Windows,
    Android,
    IOS,
}

/// Why a stored row is not a resource.
#[derive(Debug, Clone, Copy, PartialEq, Eq, Structural)]
pub enum DecodeError {
    /// The category column holds no known category name.
    UnknownCategory,
    /// The platform column holds no known platform name.
    UnknownPlatform,
}

impl Category {
    /// The name under which the category is stored and sent.
    pub open spec fn name_spec(self) -> Seq<char> {
        match self {
            Category::Game => "Game"@,
            Category::Video => "Video"@,
            Category::Remote => "Remote"@,
            Category::Music => "Music"@,
            Category::Tool => "Tool"@,
            Category::Proxy => "Proxy"@,
            Category::Development => "Development"@,
        }
    }

    /// The category that `text` names, if it names one.
    pub open spec fn parse_spec(text: Seq<char>) -> Option<Category> {
        if text == "Game"@ {
            Some(Category::Game)
        } else if text == "Video"@ {
            Some(Category::Video)
        } else if text == "Remote"@ {
            Some(Category::Remote)
        } else if text == "Music"@ {
            Some(Category::Music)
        } else if text == "Tool"@ {
            Some(Category::Tool)
        } else if text == "Proxy"@ {
            Some(Category::Proxy)
        } else if text == "Development"@ {
            Some(Category::Development)
        } else {
            None
        }
    }

    pub fn name(&self) -> (s: String)
        ensures
            s@ == self.name_spec(),
    {
        match self {
            Category::Game => "Game".to_owned(),
            Category::Video => "Video".to_owned(),
            Category::Remote => "Remote".to_owned(),
            Category::Music => "Music".to_owned(),
            Category::Tool => "Tool".to_owned(),
            Category::Proxy => "Proxy".to_owned(),
            Category::Development => "Development".to_owned(),
        }
    }

    /// Decodes a stored category name; any other text is refused.
    pub fn from_name(text: &String) -> (r: Option<Category>)
        ensures
            r == Category::parse_spec(text@),
    {
        if named(text, "Game") {
            Some(Category::Game)
        } else if named(text, "Video") {
            Some(Category::Video)
        } else if named(text, "Remote") {
            Some(Category::Remote)
        } else if named(text, "Music") {
            Some(Category::Music)
        } else if named(text, "Tool") {
            Some(Category::Tool)
        } else if named(text, "Proxy") {
            Some(Category::Proxy)
        } else if named(text, "Development") {
            Some(Category::Development)
        } else {
            None
        }
    }
}

impl Platform {
    /// The name under which the platform is stored and sent.
    pub open spec fn name_spec(self) -> Seq<char> {
        match self {
            Platform::Windows => "Windows"@,
            Platform::Android => "Android"@,
            Platform::IOS => "IOS"@,
        }
    }

    /// The platform that `text` names, if it names one.
    pub open spec fn parse_spec(text: Seq<char>) -> Option<Platform> {
        if text == "Windows"@ {
            Some(Platform::Windows)
        } else if text == "Android"@ {
            Some(Platform::Android)
        } else if text == "IOS"@ {
            Some(Platform::IOS)
        } else {
            None
        }
    }

    pub fn name(&self) -> (s: String)
        ensures
            s@ == self.name_spec(),
    {
        match self {
            Platform::Windows => "Windows".to_owned(),
            Platform::Android => "Android".to_owned(),
            Platform::IOS => "IOS".to_owned(),
        }
    }

    /// Decodes a stored platform name; any other text is refused.
    pub fn from_name(text: &String) -> (r: Option<Platform>)
        ensures
            r == Platform::parse_spec(text@),
    {
        if named(text, "Windows") {
            Some(Platform::Windows)
        } else if named(text, "Android") {
            Some(Platform::Android)
        } else if named(text, "IOS") {
            Some(Platform::IOS)
        } else {
            None
        }
    }
}

/// A row of the resources table as it is stored: the two enumerated columns
/// still as text.
#[derive(Debug, Clone, PartialEq, Eq)]
pub struct Row {
    pub key: String,
    pub display_name: String,
    pub icon_url: Option<String>,
    pub description: Option<String>,
    pub category: String,
    pub platform: String,
    pub website: Option<String>,
    pub download_url: String,
    pub readme_md: Option<String>,
    pub warning_text: Option<String>,
}

/// A catalog entry: a row whose category and platform are known.
#[derive(Debug, Clone, PartialEq, Eq)]
pub struct Resource {
    pub key: String,
    pub display_name: String,
    pub icon_url: Option<String>,
    pub description: Option<String>,
    pub category: Category,
    pub platform: Platform,
    pub website: Option<String>,
    pub download_url: String,
    pub readme_md: Option<String>,
    pub warning_text: Option<String>,
}

/// The contents of a `Row`.
pub ghost struct RowView {
    pub key: Seq<char>,
    pub display_name: Seq<char>,
    pub icon_url: Option<Seq<char>>,
    pub description: Option<Seq<char>>,
    pub category: Seq<char>,
    pub platform: Seq<char>,
    pub website: Option<Seq<char>>,
    pub download_url: Seq<char>,
    pub readme_md: Option<Seq<char>>,
    pub warning_text: Option<Seq<char>>,
}

/// The contents of a `Resource`.
pub ghost struct ResourceView {
    pub key: Seq<char>,
    pub display_name: Seq<char>,
    pub icon_url: Option<Seq<char>>,
    pub description: Option<Seq<char>>,
    pub category: Category,
    pub platform: Platform,
    pub website: Option<Seq<char>>,
    pub download_url: Seq<char>,
    pub readme_md: Option<Seq<char>>,
    pub warning_text: Option<Seq<char>>,
}

/// The contents of an optional text column; absent stays absent.
pub open spec fn text_view(text: Option<String>) -> Option<Seq<char>> {
    match text {
        Some(s) => Some(s@),
        None => None,
    }
}

impl View for Row {
    type V = RowView;

    open spec fn view(&self) -> RowView {
        RowView {
            key: self.key@,
            display_name: self.display_name@,
            icon_url: text_view(self.icon_url),
            description: text_view(self.description),
            category: self.category@,
            platform: self.platform@,
            website: text_view(self.website),
            download_url: self.download_url@,
            readme_md: text_view(self.readme_md),
            warning_text: text_view(self.warning_text),
        }
    }
}

impl View for Resource {
    type V = ResourceView;

    open spec fn view(&self) -> ResourceView {
        ResourceView {
            key: self.key@,
            display_name: self.display_name@,
            icon_url: text_view(self.icon_url),
            description: text_view(self.description),
            category: self.category,
            platform: self.platform,
            website: text_view(self.website),
            download_url: self.download_url@,
            readme_md: text_view(self.readme_md),
            warning_text: text_view(self.warning_text),
        }
    }
}

/// The contents of each row, in order.
pub open spec fn row_views(rows: Seq<Row>) -> Seq<RowView> {
    rows.map_values(|r: Row| r@)
}

/// The contents of each resource, in order.
pub open spec fn resource_views(resources: Seq<Resource>) -> Seq<ResourceView> {
    resources.map_values(|r: Resource| r@)
}

/// The resource that a row stands for: every column as it is, the category
/// and the platform decoded from their names. A row whose category is
/// unknown is refused for that, whatever its platform.
pub open spec fn decode_spec(row: RowView) -> Result<ResourceView, DecodeError> {
    match (Category::parse_spec(row.category), Platform::parse_spec(row.platform)) {
        (None, _) => Err(DecodeError::UnknownCategory),
        (Some(_), None) => Err(DecodeError::UnknownPlatform),
        (Some(category), Some(platform)) => Ok(
            ResourceView {
                key: row.key,
                display_name: row.display_name,
                icon_url: row.icon_url,
                description: row.description,
                category,
                platform,
                website: row.website,
                download_url: row.download_url,
                readme_md: row.readme_md,
                warning_text: row.warning_text,
            },
        ),
    }
}

/// Whether every row stands for a resource.
pub open spec fn decodable(rows: Seq<RowView>) -> bool {
    forall|i: int| 0 <= i < rows.len() ==> (#[trigger] decode_spec(rows[i])) is Ok
}

/// The resources that the rows stand for, in the rows' order.
pub open spec fn decoded(rows: Seq<RowView>) -> Seq<ResourceView> {
    Seq::new(rows.len(), |i: int| decode_spec(rows[i])->Ok_0)
}

/// Whether row `i` is the first that stands for no resource, and `e` is why.
pub open spec fn fails_first_at(rows: Seq<RowView>, i: int, e: DecodeError) -> bool {
    &&& 0 <= i < rows.len()
    &&& decode_spec(rows[i]) == Err::<ResourceView, DecodeError>(e)
    &&& forall|j: int| 0 <= j < i ==> (#[trigger] decode_spec(rows[j])) is Ok
}

fn copy_text(text: &Option<String>) -> (c: Option<String>)
    ensures
        text_view(c) == text_view(*text),
{
    match text {
        Some(s) => Some(s.clone()),
        None => None,
    }
}

impl Row {
    /// A row with the same contents.
    pub fn duplicate(&self) -> (r: Row)
        ensures
            r@ == self@,
    {
        Row {
            key: self.key.clone(),
            display_name: self.display_name.clone(),
            icon_url: copy_text(&self.icon_url),
            description: copy_text(&self.description),
            category: self.category.clone(),
            platform: self.platform.clone(),
            website: copy_text(&self.website),
            download_url: self.download_url.clone(),
            readme_md: copy_text(&self.readme_md),
            warning_text: copy_text(&self.warning_text),
        }
    }
}

impl Resource {
    /// Decodes one stored row. It succeeds exactly when the row's category
    /// and platform are known names, and then keeps every column as it is.
    pub fn from_row(row: &Row) -> (r: Result<Resource, DecodeError>)
        ensures
            match r {
                Ok(resource) => decode_spec(row@) == Ok::<ResourceView, DecodeError>(resource@),
                Err(e) => decode_spec(row@) == Err::<ResourceView, DecodeError>(e),
            },
    {
        let category = match Category::from_name(&row.category) {
            Some(c) => c,
            None => { return Err(DecodeError::UnknownCategory); },
        };
        let platform = match Platform::from_name(&row.platform) {
            Some(p) => p,
            None => { return Err(DecodeError::UnknownPlatform); },
        };
        Ok(
            Resource {
                key: row.key.clone(),
                display_name: row.display_name.clone(),
                icon_url: copy_text(&row.icon_url),
                description: copy_text(&row.description),
                category,
                platform,
                website: copy_text(&row.website),
                download_url: row.download_url.clone(),
                readme_md: copy_text(&row.readme_md),
                warning_text: copy_text(&row.warning_text),
            },
        )
    }

    /// The row under which the resource is stored.
    pub fn to_row(&self) -> (row: Row)
        ensures
            decode_spec(row@) == Ok::<ResourceView, DecodeError>(self@),
            row@.category == self.category.name_spec(),
            row@.platform == self.platform.name_spec(),
    {
        proof {
            law_category_names(self.category, self.category.name_spec());
            law_platform_names(self.platform, self.platform.name_spec());
        }
        Row {
            key: self.key.clone(),
            display_name: self.display_name.clone(),
            icon_url: copy_text(&self.icon_url),
            description: copy_text(&self.description),
            category: self.category.name(),
            platform: self.platform.name(),
            website: copy_text(&self.website),
            download_url: self.download_url.clone(),
            readme_md: copy_text(&self.readme_md),
            warning_text: copy_text(&self.warning_text),
        }
    }
}

/// Decodes the rows in order. It succeeds exactly when every row stands for
/// a resource; otherwise it gives the reason of the first row that does not,
/// and no resource at all.
pub fn decode_all(rows: &Vec<Row>) -> (r: Result<Vec<Resource>, DecodeError>)
    ensures
        r is Ok <==> decodable(row_views(rows@)),
        match r {
            Ok(resources) => resource_views(resources@) == decoded(row_views(rows@)),
            Err(e) => exists|i: int| fails_first_at(row_views(rows@), i, e),
        },
{
    let mut out: Vec<Resource> = Vec::new();
    let mut i: usize = 0;
    while i < rows.len()
        invariant
            i <= rows.len(),
            out.len() == i,
            forall|j: int|
                0 <= j < i ==> (#[trigger] decode_spec(row_views(rows@)[j]))
                    == Ok::<ResourceView, DecodeError>(out@[j]@),
        decreases rows.len() - i,
    {
        match Resource::from_row(&rows[i]) {
            Ok(resource) => {
                out.push(resource);
            },
            Err(e) => {
                proof {
                    assert(fails_first_at(row_views(rows@), i as int, e));
                }
                return Err(e);
            },
        }
        i += 1;
    }
    proof {
        assert(resource_views(out@) =~= decoded(row_views(rows@)));
    }
    Ok(out)
}

/// Whether `text` is exactly `name`.
fn named(text: &String, name: &str) -> (same: bool)
    ensures
        same == (text@ == name@),
{
    let owned: String = name.to_owned();
    *text == owned
}

/// Every category is decoded from its own name, and from no other text.
pub proof fn law_category_names(c: Category, text: Seq<char>)
    ensures
        Category::parse_spec(c.name_spec()) == Some(c),
        Category::parse_spec(text) == Some(c) <==> text == c.name_spec(),
{
    reveal_strlit("Game");
    reveal_strlit("Video");
    reveal_strlit("Remote");
    reveal_strlit("Music");
    reveal_strlit("Tool");
    reveal_strlit("Proxy");
    reveal_strlit("Development");
    assert("Game"@.len() == 4 && "Tool"@.len() == 4 && "Remote"@.len() == 6);
    assert("Video"@.len() == 5 && "Music"@.len() == 5 && "Proxy"@.len() == 5);
    assert("Development"@.len() == 11);
    assert("Game"@[0] == 'G' && "Tool"@[0] == 'T');
    assert("Video"@[0] == 'V' && "Music"@[0] == 'M' && "Proxy"@[0] == 'P');
}

/// Every platform is decoded from its own name, and from no other text.
pub proof fn law_platform_names(p: Platform, text: Seq<char>)
    ensures
        Platform::parse_spec(p.name_spec()) == Some(p),
        Platform::parse_spec(text) == Some(p) <==> text == p.name_spec(),
{
    reveal_strlit("Windows");
    reveal_strlit("Android");
    reveal_strlit("IOS");
    assert("Windows"@[0] != "Android"@[0]);
}


/// Decoding changes nothing: every column of a decoded row is found in the
/// resource with the same value, an absent one still absent, and the
/// category and platform are the ones that the row's text names.
pub proof fn law_decode_keeps_columns(row: RowView, resource: ResourceView)
    requires
        decode_spec(row) == Ok::<ResourceView, DecodeError>(resource),
    ensures
        resource.key == row.key,
        resource.display_name == row.display_name,
        resource.icon_url == row.icon_url,
        resource.description == row.description,
        resource.category.name_spec() == row.category,
        resource.platform.name_spec() == row.platform,
        resource.website == row.website,
        resource.download_url == row.download_url,
        resource.readme_md == row.readme_md,
        resource.warning_text == row.warning_text,
{
    law_category_names(resource.category, row.category);
    law_platform_names(resource.platform, row.platform);
}

/// A row is refused exactly when its category or its platform is no known
/// name.
pub proof fn law_decode_refuses_unknown(row: RowView)
    ensures
        decode_spec(row) is Err <==> (forall|c: Category| c.name_spec() != row.category) || (
        forall|p: Platform| p.name_spec() != row.platform),
{
    assert forall|c: Category| Category::parse_spec(row.category) == Some(c) <==> row.category
        == c.name_spec() by {
        law_category_names(c, row.category);
    }
    assert forall|p: Platform| Platform::parse_spec(row.platform) == Some(p) <==> row.platform
        == p.name_spec() by {
        law_platform_names(p, row.platform);
    }
    if Category::parse_spec(row.category) is Some {
        let c = Category::parse_spec(row.category)->Some_0;
        assert(c.name_spec() == row.category);
    }
    if Platform::parse_spec(row.platform) is Some {
        let p = Platform::parse_spec(row.platform)->Some_0;
        assert(p.name_spec() == row.platform);
    }
}

} // verus!
