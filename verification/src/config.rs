//! The settings of the site and the addresses that are built from them.

use vstd::prelude::*;
use vstd::string::*;

verus! {

/// How the site presents itself.
#[derive(Debug, Clone, PartialEq, Eq)]
pub struct SiteConfig {
    pub name: String,
    pub title: String,
    pub description: String,
    pub base_url: String,
}

impl Default for SiteConfig {
    fn default() -> (r: SiteConfig)
        ensures
            r.name@ == "My CraftCMS Site"@,
            r.title@ == "Welcome to CraftCMS"@,
            r.description@
                == "A simple CMS for managing and serving templated HTML documents with images."@,
            r.base_url@ == "http://localhost:8080"@,
    {
        SiteConfig {
            name: String::from_str("My CraftCMS Site"),
            title: String::from_str("Welcome to CraftCMS"),
            description: String::from_str(
                "A simple CMS for managing and serving templated HTML documents with images.",
            ),
            base_url: String::from_str("http://localhost:8080"),
        }
    }
}

/// The path segments under which pages and images are served.
#[derive(Debug, Clone, PartialEq, Eq)]
pub struct RoutesConfig {
    pub detail_path: String,
    pub images_path: String,
}

impl Default for RoutesConfig {
    fn default() -> (r: RoutesConfig)
        ensures
            r.detail_path@ == "post"@,
            r.images_path@ == "images"@,
    {
        RoutesConfig {
            detail_path: String::from_str("post"),
            images_path: String::from_str("images"),
        }
    }
}

/// What the pages say of their author.
#[derive(Debug, Clone, PartialEq, Eq)]
pub struct MetaConfig {
    pub author: String,
    pub creator_suffix: String,
}

impl Default for MetaConfig {
    fn default() -> (r: MetaConfig)
        ensures
            r.author@ == "CraftCMS User"@,
            r.creator_suffix@ == "Created with CraftCMS"@,
    {
        MetaConfig {
            author: String::from_str("CraftCMS User"),
            creator_suffix: String::from_str("Created with CraftCMS"),
        }
    }
}

/// Where the server listens.
#[derive(Debug, Clone, PartialEq, Eq)]
pub struct ServerConfig {
    pub host: String,
    pub port: u16,
}

impl Default for ServerConfig {
    fn default() -> (r: ServerConfig)
        ensures
            r.host@ == "127.0.0.1"@,
            r.port == 8080,
    {
        ServerConfig { host: String::from_str("127.0.0.1"), port: 8080 }
    }
}

/// All settings of the service.
#[derive(Debug, Clone, PartialEq, Eq)]
pub struct Config {
    pub site: SiteConfig,
    pub routes: RoutesConfig,
    pub server: ServerConfig,
    pub meta: MetaConfig,
}

/// `base`, `segment` and `slug` joined by single slashes.
pub open spec fn url_of(base: Seq<char>, segment: Seq<char>, slug: Seq<char>) -> Seq<char> {
    base + seq!['/'] + segment + seq!['/'] + slug
}

impl Config {
    /// The address of the page that shows the image with the given slug.
    pub fn get_detail_url(&self, slug: &str) -> (r: String)
        ensures
            r@ == url_of(self.site.base_url@, self.routes.detail_path@, slug@),
    {
        build_url(self.site.base_url.as_str(), self.routes.detail_path.as_str(), slug)
    }

    /// The address under which the image with the given slug is served.
    pub fn get_image_url(&self, slug: &str) -> (r: String)
        ensures
            r@ == url_of(self.site.base_url@, self.routes.images_path@, slug@),
    {
        build_url(self.site.base_url.as_str(), self.routes.images_path.as_str(), slug)
    }
}

impl Default for Config {
    fn default() -> (r: Config)
        ensures
            r.site.base_url@ == "http://localhost:8080"@,
            r.routes.detail_path@ == "post"@,
            r.routes.images_path@ == "images"@,
            r.server.host@ == "127.0.0.1"@,
            r.server.port == 8080,
            r.meta.author@ == "CraftCMS User"@,
            r.meta.creator_suffix@ == "Created with CraftCMS"@,
            r.site.name@ == "My CraftCMS Site"@,
            r.site.title@ == "Welcome to CraftCMS"@,
            r.site.description@
                == "A simple CMS for managing and serving templated HTML documents with images."@,
    {
        Config {
            site: SiteConfig::default(),
            routes: RoutesConfig::default(),
            server: ServerConfig::default(),
            meta: MetaConfig::default(),
        }
    }
}

fn build_url(base: &str, segment: &str, slug: &str) -> (r: String)
    ensures
        r@ == url_of(base@, segment@, slug@),
{
    proof {
        reveal_strlit("/");
        assert("/"@ =~= seq!['/']);
    }
    let mut r = String::from_str(base);
    r.append("/");
    r.append(segment);
    r.append("/");
    r.append(slug);
    r
}

} // verus!
