//! The actions that change some fields of a record and keep the rest.

use crate::body::{opt_json, Body, Fields};
use crate::client::CKAN;
use crate::json::IntoJson;
use crate::request::{CkanError, Request};
use vstd::prelude::*;

verus! {

impl CKAN {
    /// Plans a call of `package_patch`.
    ///
    /// <https://docs.ckan.org/en/2.11/api/index.html#ckan.logic.action.patch.package_patch>
    pub fn package_patch(
        &self,
        id: String,
        name: String,
        title: Option<String>,
        private: bool,
        author: Option<String>,
        author_email: Option<String>,
        maintainer: Option<String>,
        maintainer_email: Option<String>,
        license_id: Option<String>,
        notes: Option<String>,
        url: Option<String>,
        version: Option<String>,
        state: Option<String>,
        _type: Option<String>,
        resources: Option<Vec<serde_json::Value>>,
        tags: Option<Vec<serde_json::Value>>,
        extras: Option<Vec<serde_json::Value>>,
        plugin_data: Option<serde_json::Value>,
        relationships_as_object: Option<Vec<serde_json::Value>>,
        relationships_as_subject: Option<Vec<serde_json::Value>>,
        groups: Option<Vec<serde_json::Value>>,
        owner_org: Option<String>,
        custom_fields: Option<serde_json::Value>,
    ) -> (r: Request)
        ensures
            r@ == self.post_plan(
                "package_patch"@,
                Fields::empty()
                    .set("id"@, id.json_spec())
                    .set("name"@, name.json_spec())
                    .opt("title"@, opt_json(title))
                    .set("private"@, private.json_spec())
                    .opt("author"@, opt_json(author))
                    .opt("author_email"@, opt_json(author_email))
                    .opt("maintainer"@, opt_json(maintainer))
                    .opt("maintainer_email"@, opt_json(maintainer_email))
                    .opt("license_id"@, opt_json(license_id))
                    .opt("notes"@, opt_json(notes))
                    .opt("url"@, opt_json(url))
                    .opt("version"@, opt_json(version))
                    .opt("state"@, opt_json(state))
                    .opt("type"@, opt_json(_type))
                    .opt("resources"@, opt_json(resources))
                    .opt("tags"@, opt_json(tags))
                    .opt("extras"@, opt_json(extras))
                    .opt("plugin_data"@, opt_json(plugin_data))
                    .opt("relationships_as_object"@, opt_json(relationships_as_object))
                    .opt("relationships_as_subject"@, opt_json(relationships_as_subject))
                    .opt("groups"@, opt_json(groups))
                    .opt("owner_org"@, opt_json(owner_org))
                    .merge(opt_json(custom_fields)),
            ),
    {
        let mut body = Body::new();
        body.insert("id", id);
        body.insert("name", name);
        body.opsert("title", title);
        body.insert("private", private);
        body.opsert("author", author);
        body.opsert("author_email", author_email);
        body.opsert("maintainer", maintainer);
        body.opsert("maintainer_email", maintainer_email);
        body.opsert("license_id", license_id);
        body.opsert("notes", notes);
        body.opsert("url", url);
        body.opsert("version", version);
        body.opsert("state", state);
        body.opsert("type", _type);
        body.opsert("resources", resources);
        body.opsert("tags", tags);
        body.opsert("extras", extras);
        body.opsert("plugin_data", plugin_data);
        body.opsert("relationships_as_object", relationships_as_object);
        body.opsert("relationships_as_subject", relationships_as_subject);
        body.opsert("groups", groups);
        body.opsert("owner_org", owner_org);
        body.merge(custom_fields);
        self.send("package_patch", body)
    }

    /// Plans a call of `resource_patch`.
    ///
    /// <https://docs.ckan.org/en/2.11/api/index.html#ckan.logic.action.patch.resource_patch>
    pub fn resource_patch(
        &self,
        id: String,
        package_id: String,
        url: Option<String>,
        description: Option<String>,
        format: Option<String>,
        hash: Option<String>,
        name: Option<String>,
        resource_type: Option<String>,
        mimetype: Option<String>,
        mimetype_inner: Option<String>,
        cache_url: Option<String>,
        size: Option<i32>,
        created: Option<String>,
        last_modified: Option<String>,
        cache_last_updated: Option<String>,
        upload: Option<std::path::PathBuf>,
    ) -> (r: Result<Request, CkanError>)
        ensures
            self.upload_outcome(
                "resource_patch"@,
                Fields::empty()
                    .set("id"@, id.json_spec())
                    .set("package_id"@, package_id.json_spec())
                    .opt("url"@, opt_json(url))
                    .opt("description"@, opt_json(description))
                    .opt("format"@, opt_json(format))
                    .opt("hash"@, opt_json(hash))
                    .opt("name"@, opt_json(name))
                    .opt("resource_type"@, opt_json(resource_type))
                    .opt("mimetype"@, opt_json(mimetype))
                    .opt("mimetype_inner"@, opt_json(mimetype_inner))
                    .opt("cache_url"@, opt_json(cache_url))
                    .opt("size"@, opt_json(size))
                    .opt("created"@, opt_json(created))
                    .opt("last_modified"@, opt_json(last_modified))
                    .opt("cache_last_updated"@, opt_json(cache_last_updated)),
                upload,
                r,
            ),
    {
        let mut body = Body::new();
        body.insert("id", id);
        body.insert("package_id", package_id);
        body.opsert("url", url);
        body.opsert("description", description);
        body.opsert("format", format);
        body.opsert("hash", hash);
        body.opsert("name", name);
        body.opsert("resource_type", resource_type);
        body.opsert("mimetype", mimetype);
        body.opsert("mimetype_inner", mimetype_inner);
        body.opsert("cache_url", cache_url);
        body.opsert("size", size);
        body.opsert("created", created);
        body.opsert("last_modified", last_modified);
        body.opsert("cache_last_updated", cache_last_updated);
        self.send_with("resource_patch", body, upload)
    }

    /// Plans a call of `group_patch`.
    ///
    /// <https://docs.ckan.org/en/2.11/api/index.html#ckan.logic.action.update.group_patch>
    pub fn group_patch(
        &self,
        id: String,
        name: String,
        title: Option<String>,
        description: Option<String>,
        image_url: Option<String>,
        _type: Option<String>,
        state: Option<String>,
        approval_status: Option<String>,
        extras: Option<Vec<serde_json::Value>>,
        packages: Option<Vec<serde_json::Value>>,
        groups: Option<Vec<serde_json::Value>>,
        users: Option<Vec<serde_json::Value>>,
    ) -> (r: Request)
        ensures
            r@ == self.post_plan(
                "group_patch"@,
                Fields::empty()
                    .set("id"@, id.json_spec())
                    .set("name"@, name.json_spec())
                    .opt("title"@, opt_json(title))
                    .opt("description"@, opt_json(description))
                    .opt("image_url"@, opt_json(image_url))
                    .opt("type"@, opt_json(_type))
                    .opt("state"@, opt_json(state))
                    .opt("approval_status"@, opt_json(approval_status))
                    .opt("extras"@, opt_json(extras))
                    .opt("packages"@, opt_json(packages))
                    .opt("groups"@, opt_json(groups))
                    .opt("users"@, opt_json(users)),
            ),
    {
        let mut body = Body::new();
        body.insert("id", id);
        body.insert("name", name);
        body.opsert("title", title);
        body.opsert("description", description);
        body.opsert("image_url", image_url);
        body.opsert("type", _type);
        body.opsert("state", state);
        body.opsert("approval_status", approval_status);
        body.opsert("extras", extras);
        body.opsert("packages", packages);
        body.opsert("groups", groups);
        body.opsert("users", users);
        self.send("group_patch", body)
    }

    /// Plans a call of `organization_patch`.
    ///
    /// <https://docs.ckan.org/en/2.11/api/index.html#ckan.logic.action.patch.organization_patch>
    pub fn organization_patch(
        &self,
        id: String,
        name: String,
        title: Option<String>,
        description: Option<String>,
        image_url: Option<String>,
        state: Option<String>,
        approval_status: Option<String>,
        extras: Option<Vec<serde_json::Value>>,
        users: Option<Vec<serde_json::Value>>,
    ) -> (r: Request)
        ensures
            r@ == self.post_plan(
                "organization_patch"@,
                Fields::empty()
                    .set("id"@, id.json_spec())
                    .set("name"@, name.json_spec())
                    .opt("title"@, opt_json(title))
                    .opt("description"@, opt_json(description))
                    .opt("image_url"@, opt_json(image_url))
                    .opt("state"@, opt_json(state))
                    .opt("approval_status"@, opt_json(approval_status))
                    .opt("extras"@, opt_json(extras))
                    .opt("users"@, opt_json(users)),
            ),
    {
        let mut body = Body::new();
        body.insert("id", id);
        body.insert("name", name);
        body.opsert("title", title);
        body.opsert("description", description);
        body.opsert("image_url", image_url);
        body.opsert("state", state);
        body.opsert("approval_status", approval_status);
        body.opsert("extras", extras);
        body.opsert("users", users);
        self.send("organization_patch", body)
    }

    /// Plans a call of `user_patch`.
    ///
    /// <https://docs.ckan.org/en/2.11/api/index.html#ckan.logic.action.patch.user_patch>
    pub fn user_patch(
        &self,
        id: String,
        name: String,
        email: String,
        password: String,
        fullname: Option<String>,
        about: Option<String>,
        image_url: Option<String>,
        plugin_extras: Option<serde_json::Value>,
        with_apitoken: Option<bool>,
    ) -> (r: Request)
        ensures
            r@ == self.post_plan(
                "user_patch"@,
                Fields::empty()
                    .set("id"@, id.json_spec())
                    .set("name"@, name.json_spec())
                    .set("email"@, email.json_spec())
                    .set("password"@, password.json_spec())
                    .opt("fullname"@, opt_json(fullname))
                    .opt("about"@, opt_json(about))
                    .opt("image_url"@, opt_json(image_url))
                    .opt("plugin_extras"@, opt_json(plugin_extras))
                    .opt("with_apitoken"@, opt_json(with_apitoken)),
            ),
    {
        let mut body = Body::new();
        body.insert("id", id);
        body.insert("name", name);
        body.insert("email", email);
        body.insert("password", password);
        body.opsert("fullname", fullname);
        body.opsert("about", about);
        body.opsert("image_url", image_url);
        body.opsert("plugin_extras", plugin_extras);
        body.opsert("with_apitoken", with_apitoken);
        self.send("user_patch", body)
    }
}

} // verus!
