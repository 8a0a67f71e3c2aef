//! The rendered pages: for each, the template it is rendered with and the
//! context that is handed to the template.

use vstd::prelude::*;

verus! {

/// A template's name together with the context to render it with.
#[derive(Debug)]
pub struct Page<C> {
    pub template: &'static str,
    pub context: C,
}

/// What a visitor sent with the contact form.
#[derive(Debug)]
pub struct ContactForm {
    pub name: Option<String>,
    pub message: Option<String>,
}

/// A feature advertised on the home page.
#[derive(Debug)]
pub struct Feature {
    pub name: String,
    pub description: String,
}

/// A feature as its name and its description.
pub ghost struct FeatureView {
    pub name: Seq<char>,
    pub description: Seq<char>,
}

impl View for Feature {
    type V = FeatureView;

    open spec fn view(&self) -> FeatureView {
        FeatureView { name: self.name@, description: self.description@ }
    }
}

/// The context of the home page.
#[derive(Debug)]
pub struct HomeContext {
    pub title: String,
    pub features: Vec<Feature>,
}

/// The context of the about page.
#[derive(Debug)]
pub struct AboutContext {
    pub title: String,
    pub version: String,
    pub rust_version: String,
}

/// The context of the contact page.
#[derive(Debug)]
pub struct ContactContext {
    pub title: String,
    pub submitted: bool,
    pub name: Option<String>,
    pub message: Option<String>,
}

/// A post on the blog page.
#[derive(Debug)]
pub struct BlogPost {
    pub id: u32,
    pub title: String,
    pub excerpt: String,
    pub author: String,
    pub date: String,
}

/// What a [`BlogPost`] holds, with its texts as character sequences.
pub ghost struct BlogPostView {
    pub id: u32,
    pub title: Seq<char>,
    pub excerpt: Seq<char>,
    pub author: Seq<char>,
    pub date: Seq<char>,
}

impl View for BlogPost {
    type V = BlogPostView;

    open spec fn view(&self) -> BlogPostView {
        BlogPostView {
            id: self.id,
            title: self.title@,
            excerpt: self.excerpt@,
            author: self.author@,
            date: self.date@,
        }
    }
}

/// The context of the blog page.
#[derive(Debug)]
pub struct BlogContext {
    pub title: String,
    pub posts: Vec<BlogPost>,
}

/// The context of the page that is put together entry by entry.
#[derive(Debug)]
pub struct DynamicContext {
    pub title: String,
    pub items: Vec<String>,
    pub count: i32,
    pub show_banner: Option<bool>,
}

/// The features of the home page, in the order in which they are shown.
pub open spec fn home_features() -> Seq<FeatureView> {
    seq![
        FeatureView {
            name: "Type-Safe"@,
            description: "Compile-time route and schema validation"@,
        },
        FeatureView {
            name: "Fast"@,
            description: "Built on Tokio and Hyper for maximum performance"@,
        },
        FeatureView { name: "Easy"@, description: "Minimal boilerplate, intuitive API"@ },
        FeatureView {
            name: "Documented"@,
            description: "Auto-generated OpenAPI + Swagger UI"@,
        },
    ]
}

/// The posts of the blog page, newest first.
pub open spec fn blog_posts() -> Seq<BlogPostView> {
    seq![
        BlogPostView {
            id: 1,
            title: "Getting Started with RustAPI"@,
            excerpt: "Learn how to build your first API with RustAPI..."@,
            author: "RustAPI Team"@,
            date: "2026-01-05"@,
        },
        BlogPostView {
            id: 2,
            title: "WebSocket Support in RustAPI"@,
            excerpt: "Real-time communication made easy..."@,
            author: "RustAPI Team"@,
            date: "2026-01-04"@,
        },
        BlogPostView {
            id: 3,
            title: "Template Rendering with Tera"@,
            excerpt: "Server-side rendering for your web apps..."@,
            author: "RustAPI Team"@,
            date: "2026-01-03"@,
        },
    ]
}

/// The items of the page that is put together entry by entry.
pub open spec fn dynamic_items() -> Seq<Seq<char>> {
    seq!["One"@, "Two"@, "Three"@]
}

/// Whether an entry that is inserted on a condition goes in. The page's
/// banner flag is inserted under this condition, which holds of every value.
pub fn banner_wanted(value: bool) -> (r: bool)
    ensures
        r,
{
    true
}

fn feature(name: &str, description: &str) -> (r: Feature)
    ensures
        r@ == (FeatureView { name: name@, description: description@ }),
{
    Feature { name: String::from_str(name), description: String::from_str(description) }
}

fn post(id: u32, title: &str, excerpt: &str, author: &str, date: &str) -> (r: BlogPost)
    ensures
        r@ == (BlogPostView {
            id,
            title: title@,
            excerpt: excerpt@,
            author: author@,
            date: date@,
        }),
{
    BlogPost {
        id,
        title: String::from_str(title),
        excerpt: String::from_str(excerpt),
        author: String::from_str(author),
        date: String::from_str(date),
    }
}

/// The home page.
pub fn home() -> (r: Page<HomeContext>)
    ensures
        r.template@ == "index.html"@,
        r.context.title@ == "Home"@,
        r.context.features@.map_values(|f: Feature| f@) == home_features(),
{
    let mut features: Vec<Feature> = Vec::new();
    features.push(feature("Type-Safe", "Compile-time route and schema validation"));
    features.push(feature("Fast", "Built on Tokio and Hyper for maximum performance"));
    features.push(feature("Easy", "Minimal boilerplate, intuitive API"));
    features.push(feature("Documented", "Auto-generated OpenAPI + Swagger UI"));
    assert(features@.map_values(|f: Feature| f@) =~= home_features());
    Page { template: "index.html", context: HomeContext { title: String::from_str("Home"), features } }
}

/// The about page of the program whose version is `version`.
pub fn about(version: &str) -> (r: Page<AboutContext>)
    ensures
        r.template@ == "about.html"@,
        r.context.title@ == "About"@,
        r.context.version@ == version@,
        r.context.rust_version@ == "1.75+"@,
{
    Page {
        template: "about.html",
        context: AboutContext {
            title: String::from_str("About"),
            version: String::from_str(version),
            rust_version: String::from_str("1.75+"),
        },
    }
}

/// The contact page before anything was sent.
pub fn contact_get() -> (r: Page<ContactContext>)
    ensures
        r.template@ == "contact.html"@,
        r.context.title@ == "Contact"@,
        !r.context.submitted,
        r.context.name.is_none(),
        r.context.message.is_none(),
{
    Page {
        template: "contact.html",
        context: ContactContext {
            title: String::from_str("Contact"),
            submitted: false,
            name: None,
            message: None,
        },
    }
}

/// The contact page after `params` was sent: it shows what was sent.
pub fn contact_post(params: ContactForm) -> (r: Page<ContactContext>)
    ensures
        r.template@ == "contact.html"@,
        r.context.title@ == "Contact"@,
        r.context.submitted,
        r.context.name == params.name,
        r.context.message == params.message,
{
    Page {
        template: "contact.html",
        context: ContactContext {
            title: String::from_str("Contact"),
            submitted: true,
            name: params.name,
            message: params.message,
        },
    }
}

/// The blog page.
pub fn blog() -> (r: Page<BlogContext>)
    ensures
        r.template@ == "blog.html"@,
        r.context.title@ == "Blog"@,
        r.context.posts@.map_values(|p: BlogPost| p@) == blog_posts(),
{
    let mut posts: Vec<BlogPost> = Vec::new();
    posts.push(
        post(
            1,
            "Getting Started with RustAPI",
            "Learn how to build your first API with RustAPI...",
            "RustAPI Team",
            "2026-01-05",
        ),
    );
    posts.push(
        post(
            2,
            "WebSocket Support in RustAPI",
            "Real-time communication made easy...",
            "RustAPI Team",
            "2026-01-04",
        ),
    );
    posts.push(
        post(
            3,
            "Template Rendering with Tera",
            "Server-side rendering for your web apps...",
            "RustAPI Team",
            "2026-01-03",
        ),
    );
    assert(posts@.map_values(|p: BlogPost| p@) =~= blog_posts());
    Page { template: "blog.html", context: BlogContext { title: String::from_str("Blog"), posts } }
}

/// The page that is put together entry by entry: a title, three items,
/// their count, and the banner flag, which goes in because its condition
/// holds.
pub fn dynamic() -> (r: Page<DynamicContext>)
    ensures
        r.template@ == "dynamic.html"@,
        r.context.title@ == "Dynamic Page"@,
        r.context.items@.map_values(|s: String| s@) == dynamic_items(),
        r.context.count == 3,
        r.context.show_banner == Some(true),
{
    let mut items: Vec<String> = Vec::new();
    items.push(String::from_str("One"));
    items.push(String::from_str("Two"));
    items.push(String::from_str("Three"));
    assert(items@.map_values(|s: String| s@) =~= dynamic_items());
    let show_banner = if banner_wanted(true) {
        Some(true)
    } else {
        None
    };
    Page {
        template: "dynamic.html",
        context: DynamicContext {
            title: String::from_str("Dynamic Page"),
            items,
            count: 3,
            show_banner,
        },
    }
}

} // verus!
