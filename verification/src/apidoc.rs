//! API documentation: the OpenAPI description's metadata, which handlers it
//! documents, and the routes serving it.

use vstd::prelude::*;

use crate::builder::app::{HandlerInfo, HttpMethod, RouteGroup, group_by_path, group_spec, groups_view};
use crate::table::{strings_view, table_insert, table_map, lemma_table_insert_map};
use crate::text::{chars_lt, concat_str, lemma_chars_lt_irreflexive, lemma_chars_lt_transitive, owned, str_lt};

verus! {

/// OpenAPI version of generated descriptions.
pub const OPENAPI_VERSION: &'static str = "3.0.3";

/// Errors of generating API documentation.
#[derive(Debug)]
pub enum ApiDocError {
    /// The description could not be serialized: the serializer's message.
    RenderSpec(String),
    /// A handler uses a method OpenAPI cannot describe: the method's name.
    UnsupportedMethod(String),
}

/// Serialized OpenAPI description.
#[derive(Clone, Debug)]
pub struct OpenApiSpec(pub Vec<u8>);

/// External documentation of a tag.
#[derive(Clone, Debug)]
pub struct ApiExternalDocs {
    /// Description of the documentation.
    pub description: Option<String>,
    /// Where it is.
    pub url: String,
}

/// A tag grouping operations in the documentation.
#[derive(Clone, Debug)]
pub struct ApiTag {
    /// Tag name.
    pub name: String,
    /// Tag description.
    pub description: Option<String>,
    /// External documentation.
    pub external_docs: Option<ApiExternalDocs>,
}

/// Contact information of the documented API.
#[derive(Clone, Debug)]
pub struct ApiContact {
    /// Contact name.
    pub name: Option<String>,
    /// Contact URL.
    pub url: Option<String>,
    /// Contact e-mail.
    pub email: Option<String>,
}

/// General information of a description: title, description, contact and version.
#[derive(Debug)]
pub struct ApiInfo {
    /// Title of the documented API.
    pub title: String,
    /// Description of the documented API.
    pub description: Option<String>,
    /// Contact information.
    pub contact: Option<ApiContact>,
    /// Version of the documented API.
    pub version: String,
}

/// A description of the documented API: OpenAPI version, general information,
/// operations grouped by path, and tags (the schemas of the operations come from
/// the handlers).
#[derive(Debug)]
pub struct ApiDescription {
    /// OpenAPI version of the description.
    pub openapi: String,
    /// General information.
    pub info: ApiInfo,
    /// Handlers grouped by their specification path.
    pub paths: Vec<RouteGroup>,
    /// Tags grouping operations.
    pub tags: Vec<ApiTag>,
}

impl ApiExternalDocs {
    /// A copy of the external documentation reference.
    pub fn duplicate(&self) -> (r: ApiExternalDocs)
        ensures
            r == *self,
    {
        ApiExternalDocs { description: self.description.clone(), url: self.url.clone() }
    }
}

impl ApiTag {
    /// A copy of the tag.
    pub fn duplicate(&self) -> (r: ApiTag)
        ensures
            r == *self,
    {
        let external_docs = match &self.external_docs {
            Some(d) => Some(d.duplicate()),
            None => None,
        };
        ApiTag { name: self.name.clone(), description: self.description.clone(), external_docs }
    }
}

/// A copy of a list of tags.
fn copy_tags(tags: &Vec<ApiTag>) -> (r: Vec<ApiTag>)
    ensures
        r@ == tags@,
{
    let mut r: Vec<ApiTag> = Vec::new();
    let mut i: usize = 0;
    while i < tags.len()
        invariant
            i <= tags@.len(),
            r@ == tags@.take(i as int),
        decreases tags@.len() - i,
    {
        r.push(tags[i].duplicate());
        assert(tags@.take(i + 1) =~= tags@.take(i as int).push(tags@[i as int]));
        i = i + 1;
    }
    assert(tags@.take(i as int) =~= tags@);
    r
}

/// Whether general information is the one documentation settings give.
pub open spec fn info_matches(i: ApiInfo, b: ApiDocBuilder) -> bool {
    &&& i.title@ == title_spec(b.app_title, b.app_name)
    &&& i.description == b.description
    &&& (i.contact is Some <==> (b.contact_name is Some || b.contact_url is Some || b.contact_email is Some))
    &&& i.contact matches Some(c) ==> c.name == b.contact_name && c.url == b.contact_url && c.email == b.contact_email
    &&& i.version@ == match b.app_version {
        Some(v) => v@,
        None => "0.0.0"@,
    }
}

/// API documentation settings.
#[derive(Clone, Debug)]
pub struct ApiDocBuilder {
    /// Path of the documentation page.
    pub apidoc_path: String,
    /// Path of the OpenAPI description.
    pub spec_path: String,
    /// Path of the page's script.
    pub js_path: String,
    /// Application name.
    pub app_name: Option<String>,
    /// Application version.
    pub app_version: Option<String>,
    /// Documentation title.
    pub app_title: Option<String>,
    /// API description.
    pub description: Option<String>,
    /// Contact name.
    pub contact_name: Option<String>,
    /// Contact URL.
    pub contact_url: Option<String>,
    /// Contact e-mail.
    pub contact_email: Option<String>,
    /// Tags.
    pub tags: Vec<ApiTag>,
    /// Serve the documentation page.
    pub enable_ui: bool,
    /// Inline sub-schemas instead of referring to them.
    pub inline_subschemas: bool,
    /// Attributes of the documentation page's viewer element.
    pub rapidoc_attributes: Vec<(String, String)>,
}

/// The viewer attributes set by default.
pub open spec fn default_rapidoc_attributes() -> Map<Seq<char>, Seq<char>> {
    map![
        "sort-tags"@ => "true"@,
        "theme"@ => "dark"@,
        "layout"@ => "row"@,
        "render-style"@ => "focused"@,
        "allow-spec-file-download"@ => "true"@,
        "schema-description-expanded"@ => "true"@,
        "show-components"@ => "true"@,
    ]
}

/// Sets a viewer attribute.
fn set_attribute(attrs: &mut Vec<(String, String)>, key: &str, value: &str)
    ensures
        table_map(final(attrs)@) == table_map(old(attrs)@).insert(key@, value@),
{
    let ghost before = attrs@;
    let k = owned(key);
    let v = owned(value);
    let ghost x = (k, v);
    table_insert(attrs, k, v);
    proof {
        lemma_table_insert_map(before, attrs@, x);
    }
}

impl Default for ApiDocBuilder {
    fn default() -> (r: ApiDocBuilder)
        ensures
            r.apidoc_path@ == "/apidoc"@,
            r.spec_path@ == "/openapi.json"@,
            r.js_path@ == "/rapidoc-min.js"@,
            r.app_name is None && r.app_version is None && r.app_title is None,
            r.description is None && r.contact_name is None && r.contact_url is None && r.contact_email is None,
            r.tags@.len() == 0,
            r.enable_ui && !r.inline_subschemas,
            table_map(r.rapidoc_attributes@) == default_rapidoc_attributes(),
    {
        let mut attrs: Vec<(String, String)> = Vec::new();
        proof {
            assert(table_map(attrs@) =~= Map::<Seq<char>, Seq<char>>::empty());
        }
        set_attribute(&mut attrs, "sort-tags", "true");
        set_attribute(&mut attrs, "theme", "dark");
        set_attribute(&mut attrs, "layout", "row");
        set_attribute(&mut attrs, "render-style", "focused");
        set_attribute(&mut attrs, "allow-spec-file-download", "true");
        set_attribute(&mut attrs, "schema-description-expanded", "true");
        set_attribute(&mut attrs, "show-components", "true");
        assert(table_map(attrs@) =~= default_rapidoc_attributes());
        ApiDocBuilder {
            apidoc_path: owned("/apidoc"),
            spec_path: owned("/openapi.json"),
            js_path: owned("/rapidoc-min.js"),
            app_name: None,
            app_version: None,
            app_title: None,
            description: None,
            contact_name: None,
            contact_url: None,
            contact_email: None,
            tags: Vec::new(),
            enable_ui: true,
            inline_subschemas: false,
            rapidoc_attributes: attrs,
        }
    }
}

/// Title of the documentation: the title, else the application name, else `Service`.
pub open spec fn title_spec(title: Option<String>, name: Option<String>) -> Seq<char> {
    match title {
        Some(t) => t@,
        None => match name {
            Some(n) => n@,
            None => "Service"@,
        },
    }
}

/// Kinds of routes serving the documentation.
#[derive(Clone, Copy, Debug, PartialEq, Eq, Structural)]
pub enum ApiDocRoute {
    /// The OpenAPI description.
    Spec,
    /// The documentation page.
    Index,
    /// The page's script.
    Script,
    /// The script's source map.
    ScriptMap,
}

impl ApiDocBuilder {
    /// Title of the documentation.
    pub fn app_title(&self) -> (r: &str)
        ensures
            r@ == title_spec(self.app_title, self.app_name),
    {
        match &self.app_title {
            Some(t) => t.as_str(),
            None => match &self.app_name {
                Some(n) => n.as_str(),
                None => "Service",
            },
        }
    }

    /// Set the path of the documentation page.
    pub fn with_apidoc_path(self, path: &str) -> (r: ApiDocBuilder)
        ensures
            r == (ApiDocBuilder { apidoc_path: r.apidoc_path, ..self }),
            r.apidoc_path@ == path@,
            r.spec_path == self.spec_path && r.js_path == self.js_path,
    {
        ApiDocBuilder { apidoc_path: owned(path), ..self }
    }

    /// Set the path of the OpenAPI description.
    pub fn with_spec_path(self, path: &str) -> (r: ApiDocBuilder)
        ensures
            r == (ApiDocBuilder { spec_path: r.spec_path, ..self }),
            r.spec_path@ == path@,
            r.apidoc_path == self.apidoc_path && r.js_path == self.js_path,
    {
        ApiDocBuilder { spec_path: owned(path), ..self }
    }

    /// Set the path of the page's script.
    pub fn with_js_path(self, path: &str) -> (r: ApiDocBuilder)
        ensures
            r == (ApiDocBuilder { js_path: r.js_path, ..self }),
            r.js_path@ == path@,
            r.apidoc_path == self.apidoc_path && r.spec_path == self.spec_path,
    {
        ApiDocBuilder { js_path: owned(path), ..self }
    }

    /// Set the application name.
    pub fn with_app_name(self, name: &str) -> (r: ApiDocBuilder)
        ensures
            r == (ApiDocBuilder { app_name: r.app_name, ..self }),
            r.app_name matches Some(n) && n@ == name@,
            r.app_version == self.app_version && r.app_title == self.app_title,
    {
        ApiDocBuilder { app_name: Some(owned(name)), ..self }
    }

    /// Set the application version.
    pub fn with_app_version(self, version: &str) -> (r: ApiDocBuilder)
        ensures
            r == (ApiDocBuilder { app_version: r.app_version, ..self }),
            r.app_version matches Some(v) && v@ == version@,
            r.app_name == self.app_name && r.app_title == self.app_title,
    {
        ApiDocBuilder { app_version: Some(owned(version)), ..self }
    }

    /// Set the documentation title.
    pub fn with_app_title(self, title: &str) -> (r: ApiDocBuilder)
        ensures
            r == (ApiDocBuilder { app_title: r.app_title, ..self }),
            r.app_title matches Some(t) && t@ == title@,
            r.app_name == self.app_name && r.app_version == self.app_version,
    {
        ApiDocBuilder { app_title: Some(owned(title)), ..self }
    }

    /// Set the API description.
    pub fn with_description(self, descr: &str) -> (r: ApiDocBuilder)
        ensures
            r == (ApiDocBuilder { description: r.description, ..self }),
            r.description matches Some(d) && d@ == descr@,
    {
        ApiDocBuilder { description: Some(owned(descr)), ..self }
    }

    /// Set the contact name.
    pub fn with_contact_name(self, name: &str) -> (r: ApiDocBuilder)
        ensures
            r == (ApiDocBuilder { contact_name: r.contact_name, ..self }),
            r.contact_name matches Some(n) && n@ == name@,
            r.contact_url == self.contact_url && r.contact_email == self.contact_email,
    {
        ApiDocBuilder { contact_name: Some(owned(name)), ..self }
    }

    /// Set the contact URL.
    pub fn with_contact_url(self, url: &str) -> (r: ApiDocBuilder)
        ensures
            r == (ApiDocBuilder { contact_url: r.contact_url, ..self }),
            r.contact_url matches Some(u) && u@ == url@,
            r.contact_name == self.contact_name && r.contact_email == self.contact_email,
    {
        ApiDocBuilder { contact_url: Some(owned(url)), ..self }
    }

    /// Set the contact e-mail.
    pub fn with_contact_email(self, email: &str) -> (r: ApiDocBuilder)
        ensures
            r == (ApiDocBuilder { contact_email: r.contact_email, ..self }),
            r.contact_email matches Some(e) && e@ == email@,
            r.contact_name == self.contact_name && r.contact_url == self.contact_url,
    {
        ApiDocBuilder { contact_email: Some(owned(email)), ..self }
    }

    /// Add a tag; with a URL the tag also gets external documentation, described
    /// like the tag.
    pub fn with_tag(self, tag: &str, description: Option<&str>, url: Option<&str>) -> (r: ApiDocBuilder)
        ensures
            r == (ApiDocBuilder { tags: r.tags, ..self }),
            r.tags@.len() == self.tags@.len() + 1,
            r.tags@.drop_last() == self.tags@,
            r.tags@.last().name@ == tag@,
            match description {
                Some(d) => r.tags@.last().description matches Some(x) && x@ == d@,
                None => r.tags@.last().description is None,
            },
            match url {
                None => r.tags@.last().external_docs is None,
                Some(u) => r.tags@.last().external_docs matches Some(docs) && docs.url@ == u@
                    && match description {
                        Some(d) => docs.description matches Some(x) && x@ == d@,
                        None => docs.description is None,
                    },
            },
    {
        let external_docs = match url {
            Some(u) => Some(ApiExternalDocs {
                description: match description {
                    Some(d) => Some(owned(d)),
                    None => None,
                },
                url: owned(u),
            }),
            None => None,
        };
        let t = ApiTag {
            name: owned(tag),
            description: match description {
                Some(d) => Some(owned(d)),
                None => None,
            },
            external_docs,
        };
        let mut tags = self.tags;
        let ghost before = tags@;
        tags.push(t);
        assert(tags@.drop_last() =~= before);
        ApiDocBuilder { tags, ..self }
    }

    /// Do not serve the documentation page.
    pub fn without_ui(self) -> (r: ApiDocBuilder)
        ensures
            r == (ApiDocBuilder { enable_ui: r.enable_ui, ..self }),
            !r.enable_ui,
            r.spec_path == self.spec_path,
    {
        ApiDocBuilder { enable_ui: false, ..self }
    }

    /// Inline sub-schemas.
    pub fn with_inline_subschemas(self) -> (r: ApiDocBuilder)
        ensures
            r == (ApiDocBuilder { inline_subschemas: r.inline_subschemas, ..self }),
            r.inline_subschemas,
    {
        ApiDocBuilder { inline_subschemas: true, ..self }
    }

    /// Set a viewer attribute.
    pub fn with_rapidoc_attribute(self, key: &str, value: &str) -> (r: ApiDocBuilder)
        ensures
            r == (ApiDocBuilder { rapidoc_attributes: r.rapidoc_attributes, ..self }),
            table_map(r.rapidoc_attributes@) == table_map(self.rapidoc_attributes@).insert(key@, value@),
    {
        let mut attrs = self.rapidoc_attributes;
        set_attribute(&mut attrs, key, value);
        ApiDocBuilder { rapidoc_attributes: attrs, ..self }
    }

    /// Fill in the application name and version where they are not set.
    pub fn set_app_defaults(&mut self, name: Option<String>, version: Option<String>)
        ensures
            final(self).app_name == if old(self).app_name is None { name } else { old(self).app_name },
            final(self).app_version == if old(self).app_version is None { version } else { old(self).app_version },
            final(self).app_title == old(self).app_title,
            *final(self) == (ApiDocBuilder { app_name: final(self).app_name, app_version: final(self).app_version, ..*old(self) }),
    {
        if self.app_name.is_none() {
            self.app_name = name;
        }
        if self.app_version.is_none() {
            self.app_version = version;
        }
    }

    /// Version of the documented API: the application version, or `0.0.0`.
    pub fn info_version(&self) -> (r: String)
        ensures
            r@ == match self.app_version {
                Some(v) => v@,
                None => "0.0.0"@,
            },
    {
        match &self.app_version {
            Some(v) => owned(v.as_str()),
            None => owned("0.0.0"),
        }
    }

    /// Contact information: present when any contact detail is set.
    pub fn contact(&self) -> (r: Option<ApiContact>)
        ensures
            r is Some <==> (self.contact_name is Some || self.contact_url is Some || self.contact_email is Some),
            r matches Some(c) ==> c.name == self.contact_name && c.url == self.contact_url && c.email == self.contact_email,
    {
        if self.contact_name.is_some() || self.contact_url.is_some() || self.contact_email.is_some() {
            Some(ApiContact {
                name: self.contact_name.clone(),
                url: self.contact_url.clone(),
                email: self.contact_email.clone(),
            })
        } else {
            None
        }
    }

    /// General information of the description.
    pub fn info(&self) -> (r: ApiInfo)
        ensures
            info_matches(r, *self),
    {
        ApiInfo {
            title: owned(self.app_title()),
            description: self.description.clone(),
            contact: self.contact(),
            version: self.info_version(),
        }
    }

    /// Routes serving the documentation: the description, and with the page
    /// enabled the page (also as `index.html`), its script and the script's map.
    pub fn routes(&self) -> (r: Vec<(String, ApiDocRoute)>)
        ensures
            r@.map_values(|p: (String, ApiDocRoute)| (p.0@, p.1)) == if self.enable_ui {
                seq![
                    (self.spec_path@, ApiDocRoute::Spec),
                    (self.apidoc_path@, ApiDocRoute::Index),
                    (self.apidoc_path@ + "/index.html"@, ApiDocRoute::Index),
                    (self.js_path@, ApiDocRoute::Script),
                    (self.js_path@ + ".map"@, ApiDocRoute::ScriptMap),
                ]
            } else {
                seq![(self.spec_path@, ApiDocRoute::Spec)]
            },
    {
        let mut r: Vec<(String, ApiDocRoute)> = Vec::new();
        r.push((owned(self.spec_path.as_str()), ApiDocRoute::Spec));
        if self.enable_ui {
            r.push((owned(self.apidoc_path.as_str()), ApiDocRoute::Index));
            r.push((concat_str(self.apidoc_path.as_str(), "/index.html"), ApiDocRoute::Index));
            r.push((owned(self.js_path.as_str()), ApiDocRoute::Script));
            r.push((concat_str(self.js_path.as_str(), ".map"), ApiDocRoute::ScriptMap));
        }
        proof {
            let want = if self.enable_ui {
                seq![
                    (self.spec_path@, ApiDocRoute::Spec),
                    (self.apidoc_path@, ApiDocRoute::Index),
                    (self.apidoc_path@ + "/index.html"@, ApiDocRoute::Index),
                    (self.js_path@, ApiDocRoute::Script),
                    (self.js_path@ + ".map"@, ApiDocRoute::ScriptMap),
                ]
            } else {
                seq![(self.spec_path@, ApiDocRoute::Spec)]
            };
            assert(r@.map_values(|p: (String, ApiDocRoute)| (p.0@, p.1)) =~= want);
        }
        r
    }

    /// Operations of the description: handlers grouped by their specification
    /// path; refused when a handler uses a method OpenAPI cannot describe, naming the
    /// first such handler in the order paths are described (by path, then in
    /// registration order).
    pub fn operations(&self, handlers: &Vec<HandlerInfo>) -> (r: Result<Vec<RouteGroup>, ApiDocError>)
        requires
            handlers@.len() < usize::MAX,
        ensures
            match r {
                Ok(g) => groups_view(g@) == group_spec(handlers@.map_values(|h: HandlerInfo| h.spec_path@))
                    && forall|i: int| 0 <= i < handlers@.len() ==> !((#[trigger] handlers@[i]).method is Other),
                Err(e) => exists|i: int| {
                    &&& is_first_unsupported(handlers@, i)
                    &&& e is UnsupportedMethod
                    &&& e->UnsupportedMethod_0@ == handlers@[i].method->Other_0@
                },
            },
    {
        let mut paths: Vec<String> = Vec::new();
        let mut best: Option<(usize, String)> = None;
        let mut i: usize = 0;
        while i < handlers.len()
            invariant
                i <= handlers@.len(),
                paths@.len() == i,
                forall|j: int| 0 <= j < i ==> (#[trigger] paths@[j])@ == handlers@[j].spec_path@,
                match best {
                    None => forall|j: int| 0 <= j < i ==> !((#[trigger] handlers@[j]).method is Other),
                    Some((b, name)) => b < i && handlers@[b as int].method is Other
                        && name@ == handlers@[b as int].method->Other_0@
                        && forall|j: int| 0 <= j < i && (#[trigger] handlers@[j]).method is Other
                            ==> described_no_later(handlers@, b as int, j),
                },
            decreases handlers@.len() - i,
        {
            if let HttpMethod::Other(m) = &handlers[i].method {
                match best {
                    None => {
                        best = Some((i, owned(m.as_str())));
                        proof {
                            lemma_chars_lt_irreflexive(handlers@[i as int].spec_path@);
                        }
                    },
                    Some((b, name)) => {
                        if str_lt(handlers[i].spec_path.as_str(), handlers[b].spec_path.as_str()) {
                            proof {
                                let pi = handlers@[i as int].spec_path@;
                                let pb = handlers@[b as int].spec_path@;
                                lemma_chars_lt_irreflexive(pi);
                                assert forall|j: int| 0 <= j < i + 1 && (#[trigger] handlers@[j]).method is Other
                                    implies described_no_later(handlers@, i as int, j) by {
                                    let pj = handlers@[j].spec_path@;
                                    if j < i {
                                        assert(described_no_later(handlers@, b as int, j));
                                        if chars_lt(pj, pi) {
                                            lemma_chars_lt_transitive(pj, pi, pb);
                                        }
                                    }
                                }
                            }
                            best = Some((i, owned(m.as_str())));
                        } else {
                            proof {
                                assert(described_no_later(handlers@, b as int, i as int));
                            }
                            best = Some((b, name));
                        }
                    },
                }
            }
            paths.push(owned(handlers[i].spec_path.as_str()));
            i = i + 1;
        }
        match best {
            Some((b, name)) => {
                assert(is_first_unsupported(handlers@, b as int));
                Err(ApiDocError::UnsupportedMethod(name))
            },
            None => {
                assert(strings_view(paths@) =~= handlers@.map_values(|h: HandlerInfo| h.spec_path@));
                Ok(group_by_path(&paths))
            },
        }
    }

    /// Build the description: general information, the operations grouped by
    /// path, and the tags; refused as [`ApiDocBuilder::operations`] refuses.
    pub fn build_spec(&self, handlers: &Vec<HandlerInfo>) -> (r: Result<ApiDescription, ApiDocError>)
        requires
            handlers@.len() < usize::MAX,
        ensures
            match r {
                Ok(d) => d.openapi@ == OPENAPI_VERSION@ && info_matches(d.info, *self) && d.tags@ == self.tags@
                    && groups_view(d.paths@) == group_spec(handlers@.map_values(|h: HandlerInfo| h.spec_path@))
                    && forall|i: int| 0 <= i < handlers@.len() ==> !((#[trigger] handlers@[i]).method is Other),
                Err(e) => exists|i: int| {
                    &&& is_first_unsupported(handlers@, i)
                    &&& e is UnsupportedMethod
                    &&& e->UnsupportedMethod_0@ == handlers@[i].method->Other_0@
                },
            },
    {
        let paths = match self.operations(handlers) {
            Ok(g) => g,
            Err(e) => return Err(e),
        };
        Ok(ApiDescription {
            openapi: owned(OPENAPI_VERSION),
            info: self.info(),
            paths,
            tags: copy_tags(&self.tags),
        })
    }
}

/// Handler `b` is described no later than handler `j`: its path comes first, or
/// the paths are the same and it was registered no later.
pub open spec fn described_no_later(hs: Seq<HandlerInfo>, b: int, j: int) -> bool {
    &&& !chars_lt(hs[j].spec_path@, hs[b].spec_path@)
    &&& hs[j].spec_path@ == hs[b].spec_path@ ==> b <= j
}

/// Handler `i` is the first one with a method OpenAPI cannot describe, in the order
/// the description lists paths (by path) and handlers within a path (registration).
pub open spec fn is_first_unsupported(hs: Seq<HandlerInfo>, i: int) -> bool {
    &&& 0 <= i < hs.len()
    &&& hs[i].method is Other
    &&& forall|j: int| 0 <= j < hs.len() && (#[trigger] hs[j]).method is Other ==> described_no_later(hs, i, j)
}

} // verus!
