//! The actions that replace or reorder what is already there.

use crate::body::{opt_json, Body, Fields};
use crate::client::CKAN;
use crate::json::IntoJson;
use crate::request::{CkanError, Request};
use vstd::prelude::*;

verus! {

impl CKAN {
    /// Plans a call of `resource_update`.
    ///
    /// <https://docs.ckan.org/en/2.11/api/index.html#ckan.logic.action.update.resource_update>
    pub fn resource_update(
        &self,
        id: String,
        package_id: String,
        url: Option<String>,
        description: Option<String>,
        format: Option<String>,
        hash: Option<String>,
        name: Option<String>,
        resource_type: Option<String>,
        mimetype: Option<String>,
        mimetype_inner: Option<String>,
        cache_url: Option<String>,
        size: Option<i32>,
        created: Option<String>,
        last_modified: Option<String>,
        cache_last_updated: Option<String>,
        upload: Option<std::path::PathBuf>,
    ) -> (r: Result<Request, CkanError>)
        ensures
            self.upload_outcome(
                "resource_update"@,
                Fields::empty()
                    .set("id"@, id.json_spec())
                    .set("package_id"@, package_id.json_spec())
                    .opt("url"@, opt_json(url))
                    .opt("description"@, opt_json(description))
                    .opt("format"@, opt_json(format))
                    .opt("hash"@, opt_json(hash))
                    .opt("name"@, opt_json(name))
                    .opt("resource_type"@, opt_json(resource_type))
                    .opt("mimetype"@, opt_json(mimetype))
                    .opt("mimetype_inner"@, opt_json(mimetype_inner))
                    .opt("cache_url"@, opt_json(cache_url))
                    .opt("size"@, opt_json(size))
                    .opt("created"@, opt_json(created))
                    .opt("last_modified"@, opt_json(last_modified))
                    .opt("cache_last_updated"@, opt_json(cache_last_updated)),
                upload,
                r,
            ),
    {
        let mut body = Body::new();
        body.insert("id", id);
        body.insert("package_id", package_id);
        body.opsert("url", url);
        body.opsert("description", description);
        body.opsert("format", format);
        body.opsert("hash", hash);
        body.opsert("name", name);
        body.opsert("resource_type", resource_type);
        body.opsert("mimetype", mimetype);
        body.opsert("mimetype_inner", mimetype_inner);
        body.opsert("cache_url", cache_url);
        body.opsert("size", size);
        body.opsert("created", created);
        body.opsert("last_modified", last_modified);
        body.opsert("cache_last_updated", cache_last_updated);
        self.send_with("resource_update", body, upload)
    }

    /// Plans a call of `resource_view_update`.
    ///
    /// <https://docs.ckan.org/en/2.11/api/index.html#ckan.logic.action.update.resource_view_update>
    pub fn resource_view_update(
        &self,
        id: String,
        resource_id: String,
        title: String,
        description: Option<String>,
        view_type: String,
        config: Option<String>,
    ) -> (r: Request)
        ensures
            r@ == self.post_plan(
                "resource_view_update"@,
                Fields::empty()
                    .set("id"@, id.json_spec())
                    .set("resource_id"@, resource_id.json_spec())
                    .set("title"@, title.json_spec())
                    .opt("description"@, opt_json(description))
                    .set("view_type"@, view_type.json_spec())
                    .opt("config"@, opt_json(config)),
            ),
    {
        let mut body = Body::new();
        body.insert("id", id);
        body.insert("resource_id", resource_id);
        body.insert("title", title);
        body.opsert("description", description);
        body.insert("view_type", view_type);
        body.opsert("config", config);
        self.send("resource_view_update", body)
    }

    /// Plans a call of `resource_view_reorder`.
    ///
    /// <https://docs.ckan.org/en/2.11/api/index.html#ckan.logic.action.update.resource_view_reorder>
    pub fn resource_view_reorder(&self, id: String, order: Vec<String>) -> (r: Request)
        ensures
            r@ == self.post_plan(
                "resource_view_reorder"@,
                Fields::empty()
                    .set("id"@, id.json_spec())
                    .set("order"@, order.json_spec()),
            ),
    {
        let mut body = Body::new();
        body.insert("id", id);
        body.insert("order", order);
        self.send("resource_view_reorder", body)
    }

    /// Plans a call of `package_update`.
    ///
    /// <https://docs.ckan.org/en/2.11/api/index.html#ckan.logic.action.update.package_update>
    pub fn package_update(
        &self,
        id: String,
        name: String,
        title: Option<String>,
        private: bool,
        author: Option<String>,
        author_email: Option<String>,
        maintainer: Option<String>,
        maintainer_email: Option<String>,
        license_id: Option<String>,
        notes: Option<String>,
        url: Option<String>,
        version: Option<String>,
        state: Option<String>,
        _type: Option<String>,
        resources: Option<Vec<serde_json::Value>>,
        tags: Option<Vec<serde_json::Value>>,
        extras: Option<Vec<serde_json::Value>>,
        plugin_data: Option<serde_json::Value>,
        relationships_as_object: Option<Vec<serde_json::Value>>,
        relationships_as_subject: Option<Vec<serde_json::Value>>,
        groups: Option<Vec<serde_json::Value>>,
        owner_org: Option<String>,
        custom_fields: Option<serde_json::Value>,
    ) -> (r: Request)
        ensures
            r@ == self.post_plan(
                "package_update"@,
                Fields::empty()
                    .set("id"@, id.json_spec())
                    .set("name"@, name.json_spec())
                    .opt("title"@, opt_json(title))
                    .set("private"@, private.json_spec())
                    .opt("author"@, opt_json(author))
                    .opt("author_email"@, opt_json(author_email))
                    .opt("maintainer"@, opt_json(maintainer))
                    .opt("maintainer_email"@, opt_json(maintainer_email))
                    .opt("license_id"@, opt_json(license_id))
                    .opt("notes"@, opt_json(notes))
                    .opt("url"@, opt_json(url))
                    .opt("version"@, opt_json(version))
                    .opt("state"@, opt_json(state))
                    .opt("type"@, opt_json(_type))
                    .opt("resources"@, opt_json(resources))
                    .opt("tags"@, opt_json(tags))
                    .opt("extras"@, opt_json(extras))
                    .opt("plugin_data"@, opt_json(plugin_data))
                    .opt("relationships_as_object"@, opt_json(relationships_as_object))
                    .opt("relationships_as_subject"@, opt_json(relationships_as_subject))
                    .opt("groups"@, opt_json(groups))
                    .opt("owner_org"@, opt_json(owner_org))
                    .merge(opt_json(custom_fields)),
            ),
    {
        let mut body = Body::new();
        body.insert("id", id);
        body.insert("name", name);
        body.opsert("title", title);
        body.insert("private", private);
        body.opsert("author", author);
        body.opsert("author_email", author_email);
        body.opsert("maintainer", maintainer);
        body.opsert("maintainer_email", maintainer_email);
        body.opsert("license_id", license_id);
        body.opsert("notes", notes);
        body.opsert("url", url);
        body.opsert("version", version);
        body.opsert("state", state);
        body.opsert("type", _type);
        body.opsert("resources", resources);
        body.opsert("tags", tags);
        body.opsert("extras", extras);
        body.opsert("plugin_data", plugin_data);
        body.opsert("relationships_as_object", relationships_as_object);
        body.opsert("relationships_as_subject", relationships_as_subject);
        body.opsert("groups", groups);
        body.opsert("owner_org", owner_org);
        body.merge(custom_fields);
        self.send("package_update", body)
    }

    /// Plans a call of `package_revise`.
    ///
    /// <https://docs.ckan.org/en/2.11/api/index.html#ckan.logic.action.update.package_revise>
    pub fn package_revise(
        &self,
        _match: serde_json::Value,
        filter: Option<Vec<String>>,
        update: serde_json::Value,
        included: Option<Vec<String>>,
    ) -> (r: Request)
        ensures
            r@ == self.post_plan(
                "package_revise"@,
                Fields::empty()
                    .set("match"@, _match.json_spec())
                    .opt("filter"@, opt_json(filter))
                    .set("update"@, update.json_spec())
                    .opt("include"@, opt_json(included)),
            ),
    {
        let mut body = Body::new();
        body.insert("match", _match);
        body.opsert("filter", filter);
        body.insert("update", update);
        body.opsert("include", included);
        self.send("package_revise", body)
    }

    /// Plans a call of `package_resource_reorder`.
    ///
    /// <https://docs.ckan.org/en/2.11/api/index.html#ckan.logic.action.update.package_resource_reorder>
    pub fn package_resource_reorder(&self, id: String, order: Vec<String>) -> (r: Request)
        ensures
            r@ == self.post_plan(
                "package_resource_reorder"@,
                Fields::empty()
                    .set("id"@, id.json_spec())
                    .set("order"@, order.json_spec()),
            ),
    {
        let mut body = Body::new();
        body.insert("id", id);
        body.insert("order", order);
        self.send("package_resource_reorder", body)
    }

    /// Plans a call of `package_relationship_update`.
    ///
    /// <https://docs.ckan.org/en/2.11/api/index.html#ckan.logic.action.update.package_relationship_update>
    pub fn package_relationship_update(
        &self,
        subject: String,
        object: String,
        _type: String,
        comment: Option<String>,
    ) -> (r: Request)
        ensures
            r@ == self.post_plan(
                "package_relationship_update"@,
                Fields::empty()
                    .set("subject"@, subject.json_spec())
                    .set("object"@, object.json_spec())
                    .set("type"@, _type.json_spec())
                    .opt("comment"@, opt_json(comment)),
            ),
    {
        let mut body = Body::new();
        body.insert("subject", subject);
        body.insert("object", object);
        body.insert("type", _type);
        body.opsert("comment", comment);
        self.send("package_relationship_update", body)
    }

    /// Plans a call of `group_update`.
    ///
    /// <https://docs.ckan.org/en/2.11/api/index.html#ckan.logic.action.update.group_update>
    pub fn group_update(
        &self,
        id: String,
        name: String,
        title: Option<String>,
        description: Option<String>,
        image_url: Option<String>,
        _type: Option<String>,
        state: Option<String>,
        approval_status: Option<String>,
        extras: Option<Vec<serde_json::Value>>,
        packages: Option<Vec<serde_json::Value>>,
        groups: Option<Vec<serde_json::Value>>,
        users: Option<Vec<serde_json::Value>>,
    ) -> (r: Request)
        ensures
            r@ == self.post_plan(
                "group_update"@,
                Fields::empty()
                    .set("id"@, id.json_spec())
                    .set("name"@, name.json_spec())
                    .opt("title"@, opt_json(title))
                    .opt("description"@, opt_json(description))
                    .opt("image_url"@, opt_json(image_url))
                    .opt("type"@, opt_json(_type))
                    .opt("state"@, opt_json(state))
                    .opt("approval_status"@, opt_json(approval_status))
                    .opt("extras"@, opt_json(extras))
                    .opt("packages"@, opt_json(packages))
                    .opt("groups"@, opt_json(groups))
                    .opt("users"@, opt_json(users)),
            ),
    {
        let mut body = Body::new();
        body.insert("id", id);
        body.insert("name", name);
        body.opsert("title", title);
        body.opsert("description", description);
        body.opsert("image_url", image_url);
        body.opsert("type", _type);
        body.opsert("state", state);
        body.opsert("approval_status", approval_status);
        body.opsert("extras", extras);
        body.opsert("packages", packages);
        body.opsert("groups", groups);
        body.opsert("users", users);
        self.send("group_update", body)
    }

    /// Plans a call of `organization_update`.
    ///
    /// <https://docs.ckan.org/en/2.11/api/index.html#ckan.logic.action.update.organization_update>
    pub fn organization_update(
        &self,
        id: String,
        name: String,
        title: Option<String>,
        description: Option<String>,
        image_url: Option<String>,
        state: Option<String>,
        approval_status: Option<String>,
        extras: Option<Vec<serde_json::Value>>,
        users: Option<Vec<serde_json::Value>>,
    ) -> (r: Request)
        ensures
            r@ == self.post_plan(
                "organization_update"@,
                Fields::empty()
                    .set("id"@, id.json_spec())
                    .set("name"@, name.json_spec())
                    .opt("title"@, opt_json(title))
                    .opt("description"@, opt_json(description))
                    .opt("image_url"@, opt_json(image_url))
                    .opt("state"@, opt_json(state))
                    .opt("approval_status"@, opt_json(approval_status))
                    .opt("extras"@, opt_json(extras))
                    .opt("users"@, opt_json(users)),
            ),
    {
        let mut body = Body::new();
        body.insert("id", id);
        body.insert("name", name);
        body.opsert("title", title);
        body.opsert("description", description);
        body.opsert("image_url", image_url);
        body.opsert("state", state);
        body.opsert("approval_status", approval_status);
        body.opsert("extras", extras);
        body.opsert("users", users);
        self.send("organization_update", body)
    }

    /// Plans a call of `user_update`.
    ///
    /// <https://docs.ckan.org/en/2.11/api/index.html#ckan.logic.action.update.user_update>
    pub fn user_update(
        &self,
        id: String,
        name: String,
        email: String,
        password: String,
        fullname: Option<String>,
        about: Option<String>,
        image_url: Option<String>,
        plugin_extras: Option<serde_json::Value>,
        with_apitoken: Option<bool>,
    ) -> (r: Request)
        ensures
            r@ == self.post_plan(
                "user_update"@,
                Fields::empty()
                    .set("id"@, id.json_spec())
                    .set("name"@, name.json_spec())
                    .set("email"@, email.json_spec())
                    .set("password"@, password.json_spec())
                    .opt("fullname"@, opt_json(fullname))
                    .opt("about"@, opt_json(about))
                    .opt("image_url"@, opt_json(image_url))
                    .opt("plugin_extras"@, opt_json(plugin_extras))
                    .opt("with_apitoken"@, opt_json(with_apitoken)),
            ),
    {
        let mut body = Body::new();
        body.insert("id", id);
        body.insert("name", name);
        body.insert("email", email);
        body.insert("password", password);
        body.opsert("fullname", fullname);
        body.opsert("about", about);
        body.opsert("image_url", image_url);
        body.opsert("plugin_extras", plugin_extras);
        body.opsert("with_apitoken", with_apitoken);
        self.send("user_update", body)
    }

    /// Plans a call of `task_status_update`.
    ///
    /// <https://docs.ckan.org/en/2.11/api/index.html#ckan.logic.action.update.task_status_update>
    pub fn task_status_update(
        &self,
        id: String,
        entity_id: String,
        entity_type: String,
        task_type: String,
        key: String,
        value: Option<String>,
        state: Option<String>,
        last_updated: Option<String>,
        error: Option<String>,
    ) -> (r: Request)
        ensures
            r@ == self.post_plan(
                "task_status_update"@,
                Fields::empty()
                    .set("id"@, id.json_spec())
                    .set("entity_id"@, entity_id.json_spec())
                    .set("entity_type"@, entity_type.json_spec())
                    .set("task_type"@, task_type.json_spec())
                    .set("key"@, key.json_spec())
                    .opt("value"@, opt_json(value))
                    .opt("state"@, opt_json(state))
                    .opt("last_updated"@, opt_json(last_updated))
                    .opt("error"@, opt_json(error)),
            ),
    {
        let mut body = Body::new();
        body.insert("id", id);
        body.insert("entity_id", entity_id);
        body.insert("entity_type", entity_type);
        body.insert("task_type", task_type);
        body.insert("key", key);
        body.opsert("value", value);
        body.opsert("state", state);
        body.opsert("last_updated", last_updated);
        body.opsert("error", error);
        self.send("task_status_update", body)
    }

    /// Plans a call of `task_status_update_many`.
    ///
    /// <https://docs.ckan.org/en/2.11/api/index.html#ckan.logic.action.update.task_status_update_many>
    pub fn task_status_update_many(&self, data: Vec<serde_json::Value>) -> (r: Request)
        ensures
            r@ == self.post_plan(
                "task_status_update_many"@,
                Fields::empty()
                    .set("data"@, data.json_spec()),
            ),
    {
        let mut body = Body::new();
        body.insert("data", data);
        self.send("task_status_update_many", body)
    }

    /// Plans a call of `term_translation_update`.
    ///
    /// <https://docs.ckan.org/en/2.11/api/index.html#ckan.logic.action.update.term_translation_update>
    pub fn term_translation_update(
        &self,
        term: String,
        term_translation: String,
        lang_code: String,
    ) -> (r: Request)
        ensures
            r@ == self.post_plan(
                "term_translation_update"@,
                Fields::empty()
                    .set("term"@, term.json_spec())
                    .set("term_translation"@, term_translation.json_spec())
                    .set("lang_code"@, lang_code.json_spec()),
            ),
    {
        let mut body = Body::new();
        body.insert("term", term);
        body.insert("term_translation", term_translation);
        body.insert("lang_code", lang_code);
        self.send("term_translation_update", body)
    }

    /// Plans a call of `term_translation_update_many`.
    ///
    /// <https://docs.ckan.org/en/2.11/api/index.html#ckan.logic.action.update.term_translation_update_many>
    pub fn term_translation_update_many(&self, data: Vec<serde_json::Value>) -> (r: Request)
        ensures
            r@ == self.post_plan(
                "term_translation_update_many"@,
                Fields::empty()
                    .set("data"@, data.json_spec()),
            ),
    {
        let mut body = Body::new();
        body.insert("data", data);
        self.send("term_translation_update_many", body)
    }

    /// Plans a call of `vocabulary_update`.
    ///
    /// <https://docs.ckan.org/en/2.11/api/index.html#ckan.logic.action.update.vocabulary_update>
    pub fn vocabulary_update(
        &self,
        id: String,
        name: String,
        tags: Vec<serde_json::Value>,
    ) -> (r: Request)
        ensures
            r@ == self.post_plan(
                "vocabulary_update"@,
                Fields::empty()
                    .set("id"@, id.json_spec())
                    .set("name"@, name.json_spec())
                    .set("tags"@, tags.json_spec()),
            ),
    {
        let mut body = Body::new();
        body.insert("id", id);
        body.insert("name", name);
        body.insert("tags", tags);
        self.send("vocabulary_update", body)
    }

    /// Plans a call of `package_owner_org_update`.
    ///
    /// <https://docs.ckan.org/en/2.11/api/index.html#ckan.logic.action.update.package_owner_org_update>
    pub fn package_owner_org_update(&self, id: String, organization_id: String) -> (r: Request)
        ensures
            r@ == self.post_plan(
                "package_owner_org_update"@,
                Fields::empty()
                    .set("id"@, id.json_spec())
                    .set("organization_id"@, organization_id.json_spec()),
            ),
    {
        let mut body = Body::new();
        body.insert("id", id);
        body.insert("organization_id", organization_id);
        self.send("package_owner_org_update", body)
    }

    /// Plans a call of `bulk_update_private`.
    ///
    /// <https://docs.ckan.org/en/2.11/api/index.html#ckan.logic.action.update.bulk_update_private>
    pub fn bulk_update_private(&self, datasets: Vec<String>, org_id: String) -> (r: Request)
        ensures
            r@ == self.post_plan(
                "bulk_update_private"@,
                Fields::empty()
                    .set("datasets"@, datasets.json_spec())
                    .set("org_id"@, org_id.json_spec()),
            ),
    {
        let mut body = Body::new();
        body.insert("datasets", datasets);
        body.insert("org_id", org_id);
        self.send("bulk_update_private", body)
    }

    /// Plans a call of `bulk_update_public`.
    ///
    /// <https://docs.ckan.org/en/2.11/api/index.html#ckan.logic.action.update.bulk_update_public>
    pub fn bulk_update_public(&self, datasets: Vec<String>, org_id: String) -> (r: Request)
        ensures
            r@ == self.post_plan(
                "bulk_update_public"@,
                Fields::empty()
                    .set("datasets"@, datasets.json_spec())
                    .set("org_id"@, org_id.json_spec()),
            ),
    {
        let mut body = Body::new();
        body.insert("datasets", datasets);
        body.insert("org_id", org_id);
        self.send("bulk_update_public", body)
    }

    /// Plans a call of `bulk_update_delete`.
    ///
    /// <https://docs.ckan.org/en/2.11/api/index.html#ckan.logic.action.update.bulk_update_delete>
    pub fn bulk_update_delete(&self, datasets: Vec<String>, org_id: String) -> (r: Request)
        ensures
            r@ == self.post_plan(
                "bulk_update_delete"@,
                Fields::empty()
                    .set("datasets"@, datasets.json_spec())
                    .set("org_id"@, org_id.json_spec()),
            ),
    {
        let mut body = Body::new();
        body.insert("datasets", datasets);
        body.insert("org_id", org_id);
        self.send("bulk_update_delete", body)
    }

    /// Plans a call of `config_option_update`.
    ///
    /// <https://docs.ckan.org/en/2.11/api/index.html#ckan.logic.action.update.config_option_update>
    pub fn config_option_update(&self, options: Option<serde_json::Value>) -> (r: Request)
        ensures
            r@ == self.post_plan("config_option_update"@, Fields::empty().merge(opt_json(options))),
    {
        let mut body = Body::new();
        body.merge(options);
        self.send("config_option_update", body)
    }
}

} // verus!
