//! The actions that create records, memberships and follow relations.

use crate::body::{opt_json, Body, Fields};
use crate::client::CKAN;
use crate::json::IntoJson;
use crate::request::{CkanError, Request};
use vstd::prelude::*;

verus! {

impl CKAN {
    /// Plans a call of `package_create`.
    ///
    /// <https://docs.ckan.org/en/2.11/api/index.html#ckan.logic.action.create.package_create>
    pub fn package_create(
        &self,
        name: String,
        title: Option<String>,
        private: bool,
        author: Option<String>,
        author_email: Option<String>,
        maintainer: Option<String>,
        maintainer_email: Option<String>,
        license_id: Option<String>,
        notes: Option<String>,
        url: Option<String>,
        version: Option<String>,
        state: Option<String>,
        _type: Option<String>,
        resources: Option<Vec<serde_json::Value>>,
        tags: Option<Vec<serde_json::Value>>,
        extras: Option<Vec<serde_json::Value>>,
        plugin_data: Option<serde_json::Value>,
        relationships_as_object: Option<Vec<serde_json::Value>>,
        relationships_as_subject: Option<Vec<serde_json::Value>>,
        groups: Option<Vec<serde_json::Value>>,
        owner_org: Option<String>,
        custom_fields: Option<serde_json::Value>,
    ) -> (r: Request)
        ensures
            r@ == self.post_plan(
                "package_create"@,
                Fields::empty()
                    .set("name"@, name.json_spec())
                    .opt("title"@, opt_json(title))
                    .set("private"@, private.json_spec())
                    .opt("author"@, opt_json(author))
                    .opt("author_email"@, opt_json(author_email))
                    .opt("maintainer"@, opt_json(maintainer))
                    .opt("maintainer_email"@, opt_json(maintainer_email))
                    .opt("license_id"@, opt_json(license_id))
                    .opt("notes"@, opt_json(notes))
                    .opt("url"@, opt_json(url))
                    .opt("version"@, opt_json(version))
                    .opt("state"@, opt_json(state))
                    .opt("type"@, opt_json(_type))
                    .opt("resources"@, opt_json(resources))
                    .opt("tags"@, opt_json(tags))
                    .opt("extras"@, opt_json(extras))
                    .opt("plugin_data"@, opt_json(plugin_data))
                    .opt("relationships_as_object"@, opt_json(relationships_as_object))
                    .opt("relationships_as_subject"@, opt_json(relationships_as_subject))
                    .opt("groups"@, opt_json(groups))
                    .opt("owner_org"@, opt_json(owner_org))
                    .merge(opt_json(custom_fields)),
            ),
    {
        let mut body = Body::new();
        body.insert("name", name);
        body.opsert("title", title);
        body.insert("private", private);
        body.opsert("author", author);
        body.opsert("author_email", author_email);
        body.opsert("maintainer", maintainer);
        body.opsert("maintainer_email", maintainer_email);
        body.opsert("license_id", license_id);
        body.opsert("notes", notes);
        body.opsert("url", url);
        body.opsert("version", version);
        body.opsert("state", state);
        body.opsert("type", _type);
        body.opsert("resources", resources);
        body.opsert("tags", tags);
        body.opsert("extras", extras);
        body.opsert("plugin_data", plugin_data);
        body.opsert("relationships_as_object", relationships_as_object);
        body.opsert("relationships_as_subject", relationships_as_subject);
        body.opsert("groups", groups);
        body.opsert("owner_org", owner_org);
        body.merge(custom_fields);
        self.send("package_create", body)
    }

    /// Plans a call of `resource_create`.
    ///
    /// <https://docs.ckan.org/en/2.11/api/index.html#ckan.logic.action.create.resource_create>
    pub fn resource_create(
        &self,
        package_id: String,
        url: Option<String>,
        description: Option<String>,
        format: Option<String>,
        hash: Option<String>,
        name: Option<String>,
        resource_type: Option<String>,
        mimetype: Option<String>,
        mimetype_inner: Option<String>,
        cache_url: Option<String>,
        size: Option<i32>,
        created: Option<String>,
        last_modified: Option<String>,
        cache_last_updated: Option<String>,
        upload: Option<std::path::PathBuf>,
    ) -> (r: Result<Request, CkanError>)
        ensures
            self.upload_outcome(
                "resource_create"@,
                Fields::empty()
                    .set("package_id"@, package_id.json_spec())
                    .opt("url"@, opt_json(url))
                    .opt("description"@, opt_json(description))
                    .opt("format"@, opt_json(format))
                    .opt("hash"@, opt_json(hash))
                    .opt("name"@, opt_json(name))
                    .opt("resource_type"@, opt_json(resource_type))
                    .opt("mimetype"@, opt_json(mimetype))
                    .opt("mimetype_inner"@, opt_json(mimetype_inner))
                    .opt("cache_url"@, opt_json(cache_url))
                    .opt("size"@, opt_json(size))
                    .opt("created"@, opt_json(created))
                    .opt("last_modified"@, opt_json(last_modified))
                    .opt("cache_last_updated"@, opt_json(cache_last_updated)),
                upload,
                r,
            ),
    {
        let mut body = Body::new();
        body.insert("package_id", package_id);
        body.opsert("url", url);
        body.opsert("description", description);
        body.opsert("format", format);
        body.opsert("hash", hash);
        body.opsert("name", name);
        body.opsert("resource_type", resource_type);
        body.opsert("mimetype", mimetype);
        body.opsert("mimetype_inner", mimetype_inner);
        body.opsert("cache_url", cache_url);
        body.opsert("size", size);
        body.opsert("created", created);
        body.opsert("last_modified", last_modified);
        body.opsert("cache_last_updated", cache_last_updated);
        self.send_with("resource_create", body, upload)
    }

    /// Plans a call of `resource_view_create`.
    ///
    /// <https://docs.ckan.org/en/2.11/api/index.html#ckan.logic.action.create.resource_view_create>
    pub fn resource_view_create(
        &self,
        resource_id: String,
        title: String,
        description: Option<String>,
        view_type: String,
        config: Option<String>,
    ) -> (r: Request)
        ensures
            r@ == self.post_plan(
                "resource_view_create"@,
                Fields::empty()
                    .set("resource_id"@, resource_id.json_spec())
                    .set("title"@, title.json_spec())
                    .opt("description"@, opt_json(description))
                    .set("view_type"@, view_type.json_spec())
                    .opt("config"@, opt_json(config)),
            ),
    {
        let mut body = Body::new();
        body.insert("resource_id", resource_id);
        body.insert("title", title);
        body.opsert("description", description);
        body.insert("view_type", view_type);
        body.opsert("config", config);
        self.send("resource_view_create", body)
    }

    /// Plans a call of `create_default_resource_views`.
    ///
    /// <https://docs.ckan.org/en/2.11/api/index.html#ckan.logic.action.create.create_default_resource_views>
    pub fn create_default_resource_views(
        &self,
        resource: serde_json::Value,
        package: Option<serde_json::Value>,
        create_datastore_views: Option<bool>,
    ) -> (r: Request)
        ensures
            r@ == self.post_plan(
                "create_default_resource_views"@,
                Fields::empty()
                    .set("resource"@, resource.json_spec())
                    .opt("package"@, opt_json(package))
                    .opt("create_datastore_views"@, opt_json(create_datastore_views)),
            ),
    {
        let mut body = Body::new();
        body.insert("resource", resource);
        body.opsert("package", package);
        body.opsert("create_datastore_views", create_datastore_views);
        self.send("create_default_resource_views", body)
    }

    /// Plans a call of `package_create_default_resource_views`.
    ///
    /// <https://docs.ckan.org/en/2.11/api/index.html#ckan.logic.action.create.package_create_default_resource_views>
    pub fn package_create_default_resource_views(
        &self,
        package: serde_json::Value,
        create_datastore_views: Option<bool>,
    ) -> (r: Request)
        ensures
            r@ == self.post_plan(
                "package_create_default_resource_views"@,
                Fields::empty()
                    .set("package"@, package.json_spec())
                    .opt("create_datastore_views"@, opt_json(create_datastore_views)),
            ),
    {
        let mut body = Body::new();
        body.insert("package", package);
        body.opsert("create_datastore_views", create_datastore_views);
        self.send("package_create_default_resource_views", body)
    }

    /// Plans a call of `package_relationship_create`.
    ///
    /// <https://docs.ckan.org/en/2.11/api/index.html#ckan.logic.action.create.package_relationship_create>
    pub fn package_relationship_create(
        &self,
        subject: String,
        object: String,
        _type: String,
        comment: Option<String>,
    ) -> (r: Request)
        ensures
            r@ == self.post_plan(
                "package_relationship_create"@,
                Fields::empty()
                    .set("subject"@, subject.json_spec())
                    .set("object"@, object.json_spec())
                    .set("type"@, _type.json_spec())
                    .opt("comment"@, opt_json(comment)),
            ),
    {
        let mut body = Body::new();
        body.insert("subject", subject);
        body.insert("object", object);
        body.insert("type", _type);
        body.opsert("comment", comment);
        self.send("package_relationship_create", body)
    }

    /// Plans a call of `member_create`.
    ///
    /// <https://docs.ckan.org/en/2.11/api/index.html#ckan.logic.action.create.member_create>
    pub fn member_create(
        &self,
        id: String,
        object: String,
        object_type: String,
        capacity: String,
    ) -> (r: Request)
        ensures
            r@ == self.post_plan(
                "member_create"@,
                Fields::empty()
                    .set("id"@, id.json_spec())
                    .set("object"@, object.json_spec())
                    .set("object_type"@, object_type.json_spec())
                    .set("capacity"@, capacity.json_spec()),
            ),
    {
        let mut body = Body::new();
        body.insert("id", id);
        body.insert("object", object);
        body.insert("object_type", object_type);
        body.insert("capacity", capacity);
        self.send("member_create", body)
    }

    /// Plans a call of `package_collaborator_create`.
    ///
    /// <https://docs.ckan.org/en/2.11/api/index.html#ckan.logic.action.create.package_collaborator_create>
    pub fn package_collaborator_create(
        &self,
        id: String,
        user_id: String,
        capacity: String,
    ) -> (r: Request)
        ensures
            r@ == self.post_plan(
                "package_collaborator_create"@,
                Fields::empty()
                    .set("id"@, id.json_spec())
                    .set("user_id"@, user_id.json_spec())
                    .set("capacity"@, capacity.json_spec()),
            ),
    {
        let mut body = Body::new();
        body.insert("id", id);
        body.insert("user_id", user_id);
        body.insert("capacity", capacity);
        self.send("package_collaborator_create", body)
    }

    /// Plans a call of `group_create`.
    ///
    /// <https://docs.ckan.org/en/2.11/api/index.html#ckan.logic.action.create.group_create>
    pub fn group_create(
        &self,
        name: String,
        id: Option<String>,
        title: Option<String>,
        description: Option<String>,
        image_url: Option<String>,
        _type: Option<String>,
        state: Option<String>,
        approval_status: Option<String>,
        extras: Option<Vec<serde_json::Value>>,
        packages: Option<Vec<serde_json::Value>>,
        groups: Option<Vec<serde_json::Value>>,
        users: Option<Vec<serde_json::Value>>,
    ) -> (r: Request)
        ensures
            r@ == self.post_plan(
                "group_create"@,
                Fields::empty()
                    .set("name"@, name.json_spec())
                    .opt("id"@, opt_json(id))
                    .opt("title"@, opt_json(title))
                    .opt("description"@, opt_json(description))
                    .opt("image_url"@, opt_json(image_url))
                    .opt("type"@, opt_json(_type))
                    .opt("state"@, opt_json(state))
                    .opt("approval_status"@, opt_json(approval_status))
                    .opt("extras"@, opt_json(extras))
                    .opt("packages"@, opt_json(packages))
                    .opt("groups"@, opt_json(groups))
                    .opt("users"@, opt_json(users)),
            ),
    {
        let mut body = Body::new();
        body.insert("name", name);
        body.opsert("id", id);
        body.opsert("title", title);
        body.opsert("description", description);
        body.opsert("image_url", image_url);
        body.opsert("type", _type);
        body.opsert("state", state);
        body.opsert("approval_status", approval_status);
        body.opsert("extras", extras);
        body.opsert("packages", packages);
        body.opsert("groups", groups);
        body.opsert("users", users);
        self.send("group_create", body)
    }

    /// Plans a call of `organization_create`.
    ///
    /// <https://docs.ckan.org/en/2.11/api/index.html#ckan.logic.action.create.organization_create>
    pub fn organization_create(
        &self,
        name: String,
        id: Option<String>,
        title: Option<String>,
        description: Option<String>,
        image_url: Option<String>,
        state: Option<String>,
        approval_status: Option<String>,
        extras: Option<Vec<serde_json::Value>>,
        packages: Option<Vec<serde_json::Value>>,
        users: Option<Vec<serde_json::Value>>,
    ) -> (r: Request)
        ensures
            r@ == self.post_plan(
                "organization_create"@,
                Fields::empty()
                    .set("name"@, name.json_spec())
                    .opt("id"@, opt_json(id))
                    .opt("title"@, opt_json(title))
                    .opt("description"@, opt_json(description))
                    .opt("image_url"@, opt_json(image_url))
                    .opt("state"@, opt_json(state))
                    .opt("approval_status"@, opt_json(approval_status))
                    .opt("extras"@, opt_json(extras))
                    .opt("packages"@, opt_json(packages))
                    .opt("users"@, opt_json(users)),
            ),
    {
        let mut body = Body::new();
        body.insert("name", name);
        body.opsert("id", id);
        body.opsert("title", title);
        body.opsert("description", description);
        body.opsert("image_url", image_url);
        body.opsert("state", state);
        body.opsert("approval_status", approval_status);
        body.opsert("extras", extras);
        body.opsert("packages", packages);
        body.opsert("users", users);
        self.send("organization_create", body)
    }

    /// Plans a call of `user_create`.
    ///
    /// <https://docs.ckan.org/en/2.11/api/index.html#ckan.logic.action.create.user_create>
    pub fn user_create(
        &self,
        name: String,
        email: String,
        password: String,
        id: Option<String>,
        fullname: Option<String>,
        about: Option<String>,
        image_url: Option<String>,
        plugin_extras: Option<serde_json::Value>,
        with_apitoken: Option<bool>,
    ) -> (r: Request)
        ensures
            r@ == self.post_plan(
                "user_create"@,
                Fields::empty()
                    .set("name"@, name.json_spec())
                    .set("email"@, email.json_spec())
                    .set("password"@, password.json_spec())
                    .opt("id"@, opt_json(id))
                    .opt("fullname"@, opt_json(fullname))
                    .opt("about"@, opt_json(about))
                    .opt("image_url"@, opt_json(image_url))
                    .opt("plugin_extras"@, opt_json(plugin_extras))
                    .opt("with_apitoken"@, opt_json(with_apitoken)),
            ),
    {
        let mut body = Body::new();
        body.insert("name", name);
        body.insert("email", email);
        body.insert("password", password);
        body.opsert("id", id);
        body.opsert("fullname", fullname);
        body.opsert("about", about);
        body.opsert("image_url", image_url);
        body.opsert("plugin_extras", plugin_extras);
        body.opsert("with_apitoken", with_apitoken);
        self.send("user_create", body)
    }

    /// Plans a call of `user_invite`.
    ///
    /// <https://docs.ckan.org/en/2.11/api/index.html#ckan.logic.action.create.user_invite>
    pub fn user_invite(&self, email: String, group_id: String, role: String) -> (r: Request)
        ensures
            r@ == self.post_plan(
                "user_invite"@,
                Fields::empty()
                    .set("email"@, email.json_spec())
                    .set("group_id"@, group_id.json_spec())
                    .set("role"@, role.json_spec()),
            ),
    {
        let mut body = Body::new();
        body.insert("email", email);
        body.insert("group_id", group_id);
        body.insert("role", role);
        self.send("user_invite", body)
    }

    /// Plans a call of `vocabulary_create`.
    ///
    /// <https://docs.ckan.org/en/2.11/api/index.html#ckan.logic.action.create.vocabulary_create>
    pub fn vocabulary_create(&self, name: String, tags: Vec<serde_json::Value>) -> (r: Request)
        ensures
            r@ == self.post_plan(
                "vocabulary_create"@,
                Fields::empty()
                    .set("name"@, name.json_spec())
                    .set("tags"@, tags.json_spec()),
            ),
    {
        let mut body = Body::new();
        body.insert("name", name);
        body.insert("tags", tags);
        self.send("vocabulary_create", body)
    }

    /// Plans a call of `tag_create`.
    ///
    /// <https://docs.ckan.org/en/2.11/api/index.html#ckan.logic.action.create.tag_create>
    pub fn tag_create(&self, name: String, vocabulary_id: String) -> (r: Request)
        ensures
            r@ == self.post_plan(
                "tag_create"@,
                Fields::empty()
                    .set("name"@, name.json_spec())
                    .set("vocabulary_id"@, vocabulary_id.json_spec()),
            ),
    {
        let mut body = Body::new();
        body.insert("name", name);
        body.insert("vocabulary_id", vocabulary_id);
        self.send("tag_create", body)
    }

    /// Plans a call of `follow_user`.
    ///
    /// <https://docs.ckan.org/en/2.11/api/index.html#ckan.logic.action.create.follow_user>
    pub fn follow_user(&self, id: String) -> (r: Request)
        ensures
            r@ == self.post_plan("follow_user"@, Fields::empty().set("id"@, id.json_spec())),
    {
        let mut body = Body::new();
        body.insert("id", id);
        self.send("follow_user", body)
    }

    /// Plans a call of `follow_dataset`.
    ///
    /// <https://docs.ckan.org/en/2.11/api/index.html#ckan.logic.action.create.follow_dataset>
    pub fn follow_dataset(&self, id: String) -> (r: Request)
        ensures
            r@ == self.post_plan("follow_dataset"@, Fields::empty().set("id"@, id.json_spec())),
    {
        let mut body = Body::new();
        body.insert("id", id);
        self.send("follow_dataset", body)
    }

    /// Plans a call of `group_member_create`.
    ///
    /// <https://docs.ckan.org/en/2.11/api/index.html#ckan.logic.action.create.group_member_create>
    pub fn group_member_create(&self, id: String, username: String, role: String) -> (r: Request)
        ensures
            r@ == self.post_plan(
                "group_member_create"@,
                Fields::empty()
                    .set("id"@, id.json_spec())
                    .set("username"@, username.json_spec())
                    .set("role"@, role.json_spec()),
            ),
    {
        let mut body = Body::new();
        body.insert("id", id);
        body.insert("username", username);
        body.insert("role", role);
        self.send("group_member_create", body)
    }

    /// Plans a call of `organization_member_create`.
    ///
    /// <https://docs.ckan.org/en/2.11/api/index.html#ckan.logic.action.create.organization_member_create>
    pub fn organization_member_create(
        &self,
        id: String,
        username: String,
        role: String,
    ) -> (r: Request)
        ensures
            r@ == self.post_plan(
                "organization_member_create"@,
                Fields::empty()
                    .set("id"@, id.json_spec())
                    .set("username"@, username.json_spec())
                    .set("role"@, role.json_spec()),
            ),
    {
        let mut body = Body::new();
        body.insert("id", id);
        body.insert("username", username);
        body.insert("role", role);
        self.send("organization_member_create", body)
    }

    /// Plans a call of `follow_group`.
    ///
    /// <https://docs.ckan.org/en/2.11/api/index.html#ckan.logic.action.create.follow_group>
    pub fn follow_group(&self, id: String) -> (r: Request)
        ensures
            r@ == self.post_plan("follow_group"@, Fields::empty().set("id"@, id.json_spec())),
    {
        let mut body = Body::new();
        body.insert("id", id);
        self.send("follow_group", body)
    }

    /// Plans a call of `api_token_create`.
    ///
    /// <https://docs.ckan.org/en/2.11/api/index.html#ckan.logic.action.create.api_token_create>
    pub fn api_token_create(&self, user: String, name: String) -> (r: Request)
        ensures
            r@ == self.post_plan(
                "api_token_create"@,
                Fields::empty()
                    .set("user"@, user.json_spec())
                    .set("name"@, name.json_spec()),
            ),
    {
        let mut body = Body::new();
        body.insert("user", user);
        body.insert("name", name);
        self.send("api_token_create", body)
    }
}

} // verus!
