//! The actions that read: listings, lookups, searches and counts.

use crate::body::{opt_json, Body, Fields};
use crate::client::CKAN;
use crate::json::IntoJson;
use crate::request::Request;
use vstd::prelude::*;

verus! {

impl CKAN {
    /// Plans a call of `package_list`.
    ///
    /// <https://docs.ckan.org/en/2.11/api/index.html#ckan.logic.action.get.package_list>
    pub fn package_list(&self, limit: Option<u32>, offset: Option<u32>) -> (r: Request)
        ensures
            r@ == self.post_plan(
                "package_list"@,
                Fields::empty()
                    .opt("limit"@, opt_json(limit))
                    .opt("offset"@, opt_json(offset)),
            ),
    {
        let mut body = Body::new();
        body.opsert("limit", limit);
        body.opsert("offset", offset);
        self.send("package_list", body)
    }

    /// Plans a call of `current_package_list_with_resources`.
    ///
    /// <https://docs.ckan.org/en/2.11/api/index.html#ckan.logic.action.get.current_package_list_with_resources>
    pub fn current_package_list_with_resources(
        &self,
        limit: Option<u32>,
        offset: Option<u32>,
        page: Option<u32>,
    ) -> (r: Request)
        ensures
            r@ == self.post_plan(
                "current_package_list_with_resources"@,
                Fields::empty()
                    .opt("limit"@, opt_json(limit))
                    .opt("offset"@, opt_json(offset))
                    .opt("page"@, opt_json(page)),
            ),
    {
        let mut body = Body::new();
        body.opsert("limit", limit);
        body.opsert("offset", offset);
        body.opsert("page", page);
        self.send("current_package_list_with_resources", body)
    }

    /// Plans a call of `member_list`.
    ///
    /// <https://docs.ckan.org/en/2.11/api/index.html#ckan.logic.action.get.member_list>
    pub fn member_list(
        &self,
        id: String,
        object_type: Option<String>,
        capacity: Option<String>,
    ) -> (r: Request)
        ensures
            r@ == self.post_plan(
                "member_list"@,
                Fields::empty()
                    .set("id"@, id.json_spec())
                    .opt("object_type"@, opt_json(object_type))
                    .opt("capacity"@, opt_json(capacity)),
            ),
    {
        let mut body = Body::new();
        body.insert("id", id);
        body.opsert("object_type", object_type);
        body.opsert("capacity", capacity);
        self.send("member_list", body)
    }

    /// Plans a call of `package_collaborator_list`.
    ///
    /// <https://docs.ckan.org/en/2.11/api/index.html#ckan.logic.action.get.package_collaborator_list>
    pub fn package_collaborator_list(&self, id: String, capacity: Option<String>) -> (r: Request)
        ensures
            r@ == self.post_plan(
                "package_collaborator_list"@,
                Fields::empty()
                    .set("id"@, id.json_spec())
                    .opt("capacity"@, opt_json(capacity)),
            ),
    {
        let mut body = Body::new();
        body.insert("id", id);
        body.opsert("capacity", capacity);
        self.send("package_collaborator_list", body)
    }

    /// Plans a call of `package_collaborator_list_for_user`.
    ///
    /// <https://docs.ckan.org/en/2.11/api/index.html#ckan.logic.action.get.package_collaborator_list_for_user>
    pub fn package_collaborator_list_for_user(
        &self,
        id: String,
        capacity: Option<String>,
    ) -> (r: Request)
        ensures
            r@ == self.post_plan(
                "package_collaborator_list_for_user"@,
                Fields::empty()
                    .set("id"@, id.json_spec())
                    .opt("capacity"@, opt_json(capacity)),
            ),
    {
        let mut body = Body::new();
        body.insert("id", id);
        body.opsert("capacity", capacity);
        self.send("package_collaborator_list_for_user", body)
    }

    /// Plans a call of `group_list`.
    ///
    /// <https://docs.ckan.org/en/2.11/api/index.html#ckan.logic.action.get.group_list>
    pub fn group_list(
        &self,
        _type: Option<String>,
        order_by: Option<String>,
        sort: Option<String>,
        limit: Option<i32>,
        offset: Option<i32>,
        groups: Option<Vec<String>>,
        all_fields: Option<bool>,
        include_dataset_count: Option<bool>,
        include_extras: Option<bool>,
        include_tags: Option<bool>,
        include_groups: Option<bool>,
        include_users: Option<bool>,
    ) -> (r: Request)
        ensures
            r@ == self.post_plan(
                "group_list"@,
                Fields::empty()
                    .opt("type"@, opt_json(_type))
                    .opt("order_by"@, opt_json(order_by))
                    .opt("sort"@, opt_json(sort))
                    .opt("limit"@, opt_json(limit))
                    .opt("offset"@, opt_json(offset))
                    .opt("groups"@, opt_json(groups))
                    .opt("all_fields"@, opt_json(all_fields))
                    .opt("include_dataset_count"@, opt_json(include_dataset_count))
                    .opt("include_extras"@, opt_json(include_extras))
                    .opt("include_tags"@, opt_json(include_tags))
                    .opt("include_groups"@, opt_json(include_groups))
                    .opt("include_users"@, opt_json(include_users)),
            ),
    {
        let mut body = Body::new();
        body.opsert("type", _type);
        body.opsert("order_by", order_by);
        body.opsert("sort", sort);
        body.opsert("limit", limit);
        body.opsert("offset", offset);
        body.opsert("groups", groups);
        body.opsert("all_fields", all_fields);
        body.opsert("include_dataset_count", include_dataset_count);
        body.opsert("include_extras", include_extras);
        body.opsert("include_tags", include_tags);
        body.opsert("include_groups", include_groups);
        body.opsert("include_users", include_users);
        self.send("group_list", body)
    }

    /// Plans a call of `organization_list`.
    ///
    /// <https://docs.ckan.org/en/2.11/api/index.html#ckan.logic.action.get.organization_list>
    pub fn organization_list(
        &self,
        _type: Option<String>,
        order_by: Option<String>,
        sort: Option<String>,
        limit: Option<i32>,
        offset: Option<i32>,
        organizations: Option<Vec<String>>,
        all_fields: Option<bool>,
        include_dataset_count: Option<bool>,
        include_extras: Option<bool>,
        include_tags: Option<bool>,
        include_groups: Option<bool>,
        include_users: Option<bool>,
    ) -> (r: Request)
        ensures
            r@ == self.post_plan(
                "organization_list"@,
                Fields::empty()
                    .opt("type"@, opt_json(_type))
                    .opt("order_by"@, opt_json(order_by))
                    .opt("sort"@, opt_json(sort))
                    .opt("limit"@, opt_json(limit))
                    .opt("offset"@, opt_json(offset))
                    .opt("organizations"@, opt_json(organizations))
                    .opt("all_fields"@, opt_json(all_fields))
                    .opt("include_dataset_count"@, opt_json(include_dataset_count))
                    .opt("include_extras"@, opt_json(include_extras))
                    .opt("include_tags"@, opt_json(include_tags))
                    .opt("include_groups"@, opt_json(include_groups))
                    .opt("include_users"@, opt_json(include_users)),
            ),
    {
        let mut body = Body::new();
        body.opsert("type", _type);
        body.opsert("order_by", order_by);
        body.opsert("sort", sort);
        body.opsert("limit", limit);
        body.opsert("offset", offset);
        body.opsert("organizations", organizations);
        body.opsert("all_fields", all_fields);
        body.opsert("include_dataset_count", include_dataset_count);
        body.opsert("include_extras", include_extras);
        body.opsert("include_tags", include_tags);
        body.opsert("include_groups", include_groups);
        body.opsert("include_users", include_users);
        self.send("organization_list", body)
    }

    /// Plans a call of `group_list_authz`.
    ///
    /// <https://docs.ckan.org/en/2.11/api/index.html#ckan.logic.action.get.group_list_authz>
    pub fn group_list_authz(
        &self,
        available_only: Option<bool>,
        am_member: Option<bool>,
    ) -> (r: Request)
        ensures
            r@ == self.post_plan(
                "group_list_authz"@,
                Fields::empty()
                    .opt("available_only"@, opt_json(available_only))
                    .opt("am_member"@, opt_json(am_member)),
            ),
    {
        let mut body = Body::new();
        body.opsert("available_only", available_only);
        body.opsert("am_member", am_member);
        self.send("group_list_authz", body)
    }

    /// Plans a call of `organization_list_for_user`.
    ///
    /// <https://docs.ckan.org/en/2.11/api/index.html#ckan.logic.action.get.organization_list_for_user>
    pub fn organization_list_for_user(
        &self,
        id: Option<String>,
        permission: Option<String>,
        include_dataset_count: Option<bool>,
    ) -> (r: Request)
        ensures
            r@ == self.post_plan(
                "organization_list_for_user"@,
                Fields::empty()
                    .opt("id"@, opt_json(id))
                    .opt("permission"@, opt_json(permission))
                    .opt("include_dataset_count"@, opt_json(include_dataset_count)),
            ),
    {
        let mut body = Body::new();
        body.opsert("id", id);
        body.opsert("permission", permission);
        body.opsert("include_dataset_count", include_dataset_count);
        self.send("organization_list_for_user", body)
    }

    /// Plans a call of `license_list`, which takes no argument.
    ///
    /// <https://docs.ckan.org/en/2.11/api/index.html#ckan.logic.action.get.license_list>
    pub fn license_list(&self) -> (r: Request)
        ensures
            r@ == self.read_plan("license_list"@),
    {
        self.read("license_list")
    }

    /// Plans a call of `tag_list`.
    ///
    /// <https://docs.ckan.org/en/2.11/api/index.html#ckan.logic.action.get.tag_list>
    pub fn tag_list(
        &self,
        query: Option<String>,
        vocabulary_id: Option<String>,
        all_fields: Option<bool>,
    ) -> (r: Request)
        ensures
            r@ == self.post_plan(
                "tag_list"@,
                Fields::empty()
                    .opt("query"@, opt_json(query))
                    .opt("vocabulary_id"@, opt_json(vocabulary_id))
                    .opt("all_fields"@, opt_json(all_fields)),
            ),
    {
        let mut body = Body::new();
        body.opsert("query", query);
        body.opsert("vocabulary_id", vocabulary_id);
        body.opsert("all_fields", all_fields);
        self.send("tag_list", body)
    }

    /// Plans a call of `user_list`.
    ///
    /// <https://docs.ckan.org/en/2.11/api/index.html#ckan.logic.action.get.user_list>
    pub fn user_list(
        &self,
        q: Option<String>,
        email: Option<String>,
        order_by: Option<String>,
        all_fields: Option<bool>,
        include_site_user: Option<bool>,
    ) -> (r: Request)
        ensures
            r@ == self.post_plan(
                "user_list"@,
                Fields::empty()
                    .opt("q"@, opt_json(q))
                    .opt("email"@, opt_json(email))
                    .opt("order_by"@, opt_json(order_by))
                    .opt("all_fields"@, opt_json(all_fields))
                    .opt("include_site_user"@, opt_json(include_site_user)),
            ),
    {
        let mut body = Body::new();
        body.opsert("q", q);
        body.opsert("email", email);
        body.opsert("order_by", order_by);
        body.opsert("all_fields", all_fields);
        body.opsert("include_site_user", include_site_user);
        self.send("user_list", body)
    }

    /// Plans a call of `package_relationships_list`.
    ///
    /// <https://docs.ckan.org/en/2.11/api/index.html#ckan.logic.action.get.package_relationships_list>
    pub fn package_relationships_list(
        &self,
        id: String,
        id2: String,
        rel: Option<String>,
    ) -> (r: Request)
        ensures
            r@ == self.post_plan(
                "package_relationships_list"@,
                Fields::empty()
                    .set("id"@, id.json_spec())
                    .set("id2"@, id2.json_spec())
                    .opt("rel"@, opt_json(rel)),
            ),
    {
        let mut body = Body::new();
        body.insert("id", id);
        body.insert("id2", id2);
        body.opsert("rel", rel);
        self.send("package_relationships_list", body)
    }

    /// Plans a call of `resource_show`.
    ///
    /// <https://docs.ckan.org/en/2.11/api/index.html#ckan.logic.action.get.resource_show>
    pub fn resource_show(&self, id: String) -> (r: Request)
        ensures
            r@ == self.post_plan("resource_show"@, Fields::empty().set("id"@, id.json_spec())),
    {
        let mut body = Body::new();
        body.insert("id", id);
        self.send("resource_show", body)
    }

    /// Plans a call of `resource_view_show`.
    ///
    /// <https://docs.ckan.org/en/2.11/api/index.html#ckan.logic.action.get.resource_view_show>
    pub fn resource_view_show(&self, id: String) -> (r: Request)
        ensures
            r@ == self.post_plan("resource_view_show"@, Fields::empty().set("id"@, id.json_spec())),
    {
        let mut body = Body::new();
        body.insert("id", id);
        self.send("resource_view_show", body)
    }

    /// Plans a call of `resource_view_list`.
    ///
    /// <https://docs.ckan.org/en/2.11/api/index.html#ckan.logic.action.get.resource_view_list>
    pub fn resource_view_list(&self, id: String) -> (r: Request)
        ensures
            r@ == self.post_plan("resource_view_list"@, Fields::empty().set("id"@, id.json_spec())),
    {
        let mut body = Body::new();
        body.insert("id", id);
        self.send("resource_view_list", body)
    }

    /// Plans a call of `group_show`.
    ///
    /// <https://docs.ckan.org/en/2.11/api/index.html#ckan.logic.action.get.group_show>
    pub fn group_show(
        &self,
        id: String,
        include_datasets: Option<bool>,
        include_dataset_count: Option<bool>,
        include_extras: Option<bool>,
        include_users: Option<bool>,
        include_groups: Option<bool>,
        include_tags: Option<bool>,
        include_followers: Option<bool>,
    ) -> (r: Request)
        ensures
            r@ == self.post_plan(
                "group_show"@,
                Fields::empty()
                    .set("id"@, id.json_spec())
                    .opt("include_datasets"@, opt_json(include_datasets))
                    .opt("include_dataset_count"@, opt_json(include_dataset_count))
                    .opt("include_extras"@, opt_json(include_extras))
                    .opt("include_users"@, opt_json(include_users))
                    .opt("include_groups"@, opt_json(include_groups))
                    .opt("include_tags"@, opt_json(include_tags))
                    .opt("include_followers"@, opt_json(include_followers)),
            ),
    {
        let mut body = Body::new();
        body.insert("id", id);
        body.opsert("include_datasets", include_datasets);
        body.opsert("include_dataset_count", include_dataset_count);
        body.opsert("include_extras", include_extras);
        body.opsert("include_users", include_users);
        body.opsert("include_groups", include_groups);
        body.opsert("include_tags", include_tags);
        body.opsert("include_followers", include_followers);
        self.send("group_show", body)
    }

    /// Plans a call of `organization_show`.
    ///
    /// <https://docs.ckan.org/en/2.11/api/index.html#ckan.logic.action.get.organization_show>
    pub fn organization_show(
        &self,
        id: String,
        include_datasets: Option<bool>,
        include_dataset_count: Option<bool>,
        include_extras: Option<bool>,
        include_users: Option<bool>,
        include_groups: Option<bool>,
        include_tags: Option<bool>,
        include_followers: Option<bool>,
    ) -> (r: Request)
        ensures
            r@ == self.post_plan(
                "organization_show"@,
                Fields::empty()
                    .set("id"@, id.json_spec())
                    .opt("include_datasets"@, opt_json(include_datasets))
                    .opt("include_dataset_count"@, opt_json(include_dataset_count))
                    .opt("include_extras"@, opt_json(include_extras))
                    .opt("include_users"@, opt_json(include_users))
                    .opt("include_groups"@, opt_json(include_groups))
                    .opt("include_tags"@, opt_json(include_tags))
                    .opt("include_followers"@, opt_json(include_followers)),
            ),
    {
        let mut body = Body::new();
        body.insert("id", id);
        body.opsert("include_datasets", include_datasets);
        body.opsert("include_dataset_count", include_dataset_count);
        body.opsert("include_extras", include_extras);
        body.opsert("include_users", include_users);
        body.opsert("include_groups", include_groups);
        body.opsert("include_tags", include_tags);
        body.opsert("include_followers", include_followers);
        self.send("organization_show", body)
    }

    /// Plans a call of `group_package_show`.
    ///
    /// <https://docs.ckan.org/en/2.11/api/index.html#ckan.logic.action.get.group_package_show>
    pub fn group_package_show(&self, id: String, limit: Option<i32>) -> (r: Request)
        ensures
            r@ == self.post_plan(
                "group_package_show"@,
                Fields::empty()
                    .set("id"@, id.json_spec())
                    .opt("limit"@, opt_json(limit)),
            ),
    {
        let mut body = Body::new();
        body.insert("id", id);
        body.opsert("limit", limit);
        self.send("group_package_show", body)
    }

    /// Plans a call of `tag_show`.
    ///
    /// <https://docs.ckan.org/en/2.11/api/index.html#ckan.logic.action.get.tag_show>
    pub fn tag_show(
        &self,
        id: String,
        vocabulary_id: Option<String>,
        include_datasets: Option<bool>,
    ) -> (r: Request)
        ensures
            r@ == self.post_plan(
                "tag_show"@,
                Fields::empty()
                    .set("id"@, id.json_spec())
                    .opt("vocabulary_id"@, opt_json(vocabulary_id))
                    .opt("include_datasets"@, opt_json(include_datasets)),
            ),
    {
        let mut body = Body::new();
        body.insert("id", id);
        body.opsert("vocabulary_id", vocabulary_id);
        body.opsert("include_datasets", include_datasets);
        self.send("tag_show", body)
    }

    /// Plans a call of `user_show`.
    ///
    /// <https://docs.ckan.org/en/2.11/api/index.html#ckan.logic.action.get.user_show>
    pub fn user_show(
        &self,
        id: String,
        include_datasets: Option<bool>,
        include_num_followers: Option<bool>,
        include_password_hash: Option<bool>,
        include_plugin_extras: Option<bool>,
    ) -> (r: Request)
        ensures
            r@ == self.post_plan(
                "user_show"@,
                Fields::empty()
                    .set("id"@, id.json_spec())
                    .opt("include_datasets"@, opt_json(include_datasets))
                    .opt("include_num_followers"@, opt_json(include_num_followers))
                    .opt("include_password_hash"@, opt_json(include_password_hash))
                    .opt("include_plugin_extras"@, opt_json(include_plugin_extras)),
            ),
    {
        let mut body = Body::new();
        body.insert("id", id);
        body.opsert("include_datasets", include_datasets);
        body.opsert("include_num_followers", include_num_followers);
        body.opsert("include_password_hash", include_password_hash);
        body.opsert("include_plugin_extras", include_plugin_extras);
        self.send("user_show", body)
    }

    /// Plans a call of `package_autocomplete`.
    ///
    /// <https://docs.ckan.org/en/2.11/api/index.html#ckan.logic.action.get.package_autocomplete>
    pub fn package_autocomplete(&self, q: String, limit: Option<i32>) -> (r: Request)
        ensures
            r@ == self.post_plan(
                "package_autocomplete"@,
                Fields::empty()
                    .set("q"@, q.json_spec())
                    .opt("limit"@, opt_json(limit)),
            ),
    {
        let mut body = Body::new();
        body.insert("q", q);
        body.opsert("limit", limit);
        self.send("package_autocomplete", body)
    }

    /// Plans a call of `format_autocomplete`.
    ///
    /// <https://docs.ckan.org/en/2.11/api/index.html#ckan.logic.action.get.format_autocomplete>
    pub fn format_autocomplete(&self, q: String, limit: Option<i32>) -> (r: Request)
        ensures
            r@ == self.post_plan(
                "format_autocomplete"@,
                Fields::empty()
                    .set("q"@, q.json_spec())
                    .opt("limit"@, opt_json(limit)),
            ),
    {
        let mut body = Body::new();
        body.insert("q", q);
        body.opsert("limit", limit);
        self.send("format_autocomplete", body)
    }

    /// Plans a call of `user_autocomplete`.
    ///
    /// <https://docs.ckan.org/en/2.11/api/index.html#ckan.logic.action.get.user_autocomplete>
    pub fn user_autocomplete(&self, q: String, limit: Option<i32>) -> (r: Request)
        ensures
            r@ == self.post_plan(
                "user_autocomplete"@,
                Fields::empty()
                    .set("q"@, q.json_spec())
                    .opt("limit"@, opt_json(limit)),
            ),
    {
        let mut body = Body::new();
        body.insert("q", q);
        body.opsert("limit", limit);
        self.send("user_autocomplete", body)
    }

    /// Plans a call of `group_autocomplete`.
    ///
    /// <https://docs.ckan.org/en/2.11/api/index.html#ckan.logic.action.get.group_autocomplete>
    pub fn group_autocomplete(&self, q: String, limit: Option<i32>) -> (r: Request)
        ensures
            r@ == self.post_plan(
                "group_autocomplete"@,
                Fields::empty()
                    .set("q"@, q.json_spec())
                    .opt("limit"@, opt_json(limit)),
            ),
    {
        let mut body = Body::new();
        body.insert("q", q);
        body.opsert("limit", limit);
        self.send("group_autocomplete", body)
    }

    /// Plans a call of `organization_autocomplete`.
    ///
    /// <https://docs.ckan.org/en/2.11/api/index.html#ckan.logic.action.get.organization_autocomplete>
    pub fn organization_autocomplete(&self, q: String, limit: Option<i32>) -> (r: Request)
        ensures
            r@ == self.post_plan(
                "organization_autocomplete"@,
                Fields::empty()
                    .set("q"@, q.json_spec())
                    .opt("limit"@, opt_json(limit)),
            ),
    {
        let mut body = Body::new();
        body.insert("q", q);
        body.opsert("limit", limit);
        self.send("organization_autocomplete", body)
    }

    /// Plans a call of `package_search`.
    ///
    /// <https://docs.ckan.org/en/2.11/api/index.html#ckan.logic.action.get.package_search>
    pub fn package_search(
        &self,
        q: Option<String>,
        fq: Option<String>,
        fq_list: Option<Vec<String>>,
        sort: Option<String>,
        rows: Option<i32>,
        start: Option<i32>,
        facet: Option<String>,
        facet_mincount: Option<i32>,
        facet_limit: Option<i32>,
        facet_field: Option<Vec<String>>,
        include_drafts: Option<bool>,
        include_private: Option<bool>,
        use_default_schema: Option<bool>,
    ) -> (r: Request)
        ensures
            r@ == self.post_plan(
                "package_search"@,
                Fields::empty()
                    .opt("q"@, opt_json(q))
                    .opt("fq"@, opt_json(fq))
                    .opt("fq_list"@, opt_json(fq_list))
                    .opt("sort"@, opt_json(sort))
                    .opt("rows"@, opt_json(rows))
                    .opt("start"@, opt_json(start))
                    .opt("facet"@, opt_json(facet))
                    .opt("facet.mincount"@, opt_json(facet_mincount))
                    .opt("facet.limit"@, opt_json(facet_limit))
                    .opt("facet.field"@, opt_json(facet_field))
                    .opt("include_drafts"@, opt_json(include_drafts))
                    .opt("include_private"@, opt_json(include_private))
                    .opt("use_default_schema"@, opt_json(use_default_schema)),
            ),
    {
        let mut body = Body::new();
        body.opsert("q", q);
        body.opsert("fq", fq);
        body.opsert("fq_list", fq_list);
        body.opsert("sort", sort);
        body.opsert("rows", rows);
        body.opsert("start", start);
        body.opsert("facet", facet);
        body.opsert("facet.mincount", facet_mincount);
        body.opsert("facet.limit", facet_limit);
        body.opsert("facet.field", facet_field);
        body.opsert("include_drafts", include_drafts);
        body.opsert("include_private", include_private);
        body.opsert("use_default_schema", use_default_schema);
        self.send("package_search", body)
    }

    /// Plans a call of `resource_search`.
    ///
    /// <https://docs.ckan.org/en/2.11/api/index.html#ckan.logic.action.get.resource_search>
    pub fn resource_search<T: IntoJson>(
        &self,
        query: Option<T>,
        order_by: Option<String>,
        offset: Option<i32>,
        limit: Option<i32>,
    ) -> (r: Request)
        ensures
            r@ == self.post_plan(
                "resource_search"@,
                Fields::empty()
                    .opt("query"@, opt_json(query))
                    .opt("order_by"@, opt_json(order_by))
                    .opt("offset"@, opt_json(offset))
                    .opt("limit"@, opt_json(limit)),
            ),
    {
        let mut body = Body::new();
        body.opsert("query", query);
        body.opsert("order_by", order_by);
        body.opsert("offset", offset);
        body.opsert("limit", limit);
        self.send("resource_search", body)
    }

    /// Plans a call of `tag_search`.
    ///
    /// <https://docs.ckan.org/en/2.11/api/index.html#ckan.logic.action.get.tag_search>
    pub fn tag_search<T: IntoJson>(
        &self,
        query: Option<T>,
        vocabulary_id: Option<String>,
        limit: Option<i32>,
        offset: Option<i32>,
    ) -> (r: Request)
        ensures
            r@ == self.post_plan(
                "tag_search"@,
                Fields::empty()
                    .opt("query"@, opt_json(query))
                    .opt("vocabulary_id"@, opt_json(vocabulary_id))
                    .opt("limit"@, opt_json(limit))
                    .opt("offset"@, opt_json(offset)),
            ),
    {
        let mut body = Body::new();
        body.opsert("query", query);
        body.opsert("vocabulary_id", vocabulary_id);
        body.opsert("limit", limit);
        body.opsert("offset", offset);
        self.send("tag_search", body)
    }

    /// Plans a call of `tag_autocomplete`.
    ///
    /// <https://docs.ckan.org/en/2.11/api/index.html#ckan.logic.action.get.tag_autocomplete>
    pub fn tag_autocomplete(
        &self,
        query: String,
        vocabulary_id: Option<String>,
        limit: Option<i32>,
        offset: Option<i32>,
    ) -> (r: Request)
        ensures
            r@ == self.post_plan(
                "tag_autocomplete"@,
                Fields::empty()
                    .set("query"@, query.json_spec())
                    .opt("vocabulary_id"@, opt_json(vocabulary_id))
                    .opt("limit"@, opt_json(limit))
                    .opt("offset"@, opt_json(offset)),
            ),
    {
        let mut body = Body::new();
        body.insert("query", query);
        body.opsert("vocabulary_id", vocabulary_id);
        body.opsert("limit", limit);
        body.opsert("offset", offset);
        self.send("tag_autocomplete", body)
    }

    /// Plans a call of `task_status_show`.
    ///
    /// <https://docs.ckan.org/en/2.11/api/index.html#ckan.logic.action.get.task_status_show>
    pub fn task_status_show(
        &self,
        id: Option<String>,
        entity_id: Option<String>,
        task_type: Option<String>,
        key: Option<String>,
    ) -> (r: Request)
        ensures
            r@ == self.post_plan(
                "task_status_show"@,
                Fields::empty()
                    .opt("id"@, opt_json(id))
                    .opt("entity_id"@, opt_json(entity_id))
                    .opt("task_type"@, opt_json(task_type))
                    .opt("key"@, opt_json(key)),
            ),
    {
        let mut body = Body::new();
        body.opsert("id", id);
        body.opsert("entity_id", entity_id);
        body.opsert("task_type", task_type);
        body.opsert("key", key);
        self.send("task_status_show", body)
    }

    /// Plans a call of `term_translation_show`.
    ///
    /// <https://docs.ckan.org/en/2.11/api/index.html#ckan.logic.action.get.term_translation_show>
    pub fn term_translation_show(
        &self,
        terms: Option<Vec<String>>,
        lang_codes: Option<Vec<String>>,
    ) -> (r: Request)
        ensures
            r@ == self.post_plan(
                "term_translation_show"@,
                Fields::empty()
                    .opt("terms"@, opt_json(terms))
                    .opt("lang_codes"@, opt_json(lang_codes)),
            ),
    {
        let mut body = Body::new();
        body.opsert("terms", terms);
        body.opsert("lang_codes", lang_codes);
        self.send("term_translation_show", body)
    }

    /// Plans a call of `get_site_user`.
    ///
    /// <https://docs.ckan.org/en/2.11/api/index.html#ckan.logic.action.get.get_site_user>
    pub fn get_site_user(&self, defer_commit: Option<bool>) -> (r: Request)
        ensures
            r@ == self.post_plan(
                "get_site_user"@,
                Fields::empty()
                    .opt("defer_commit"@, opt_json(defer_commit)),
            ),
    {
        let mut body = Body::new();
        body.opsert("defer_commit", defer_commit);
        self.send("get_site_user", body)
    }

    /// Plans a call of `status_show`, which takes no argument.
    ///
    /// <https://docs.ckan.org/en/2.11/api/index.html#ckan.logic.action.get.status_show>
    pub fn status_show(&self) -> (r: Request)
        ensures
            r@ == self.read_plan("status_show"@),
    {
        self.read("status_show")
    }

    /// Plans a call of `vocabulary_list`, which takes no argument.
    ///
    /// <https://docs.ckan.org/en/2.11/api/index.html#ckan.logic.action.get.vocabulary_list>
    pub fn vocabulary_list(&self) -> (r: Request)
        ensures
            r@ == self.read_plan("vocabulary_list"@),
    {
        self.read("vocabulary_list")
    }

    /// Plans a call of `vocabulary_show`.
    ///
    /// <https://docs.ckan.org/en/2.11/api/index.html#ckan.logic.action.get.vocabulary_show>
    pub fn vocabulary_show(&self, id: String) -> (r: Request)
        ensures
            r@ == self.post_plan("vocabulary_show"@, Fields::empty().set("id"@, id.json_spec())),
    {
        let mut body = Body::new();
        body.insert("id", id);
        self.send("vocabulary_show", body)
    }

    /// Plans a call of `user_follower_count`.
    ///
    /// <https://docs.ckan.org/en/2.11/api/index.html#ckan.logic.action.get.user_follower_count>
    pub fn user_follower_count(&self, id: String) -> (r: Request)
        ensures
            r@ == self.post_plan(
                "user_follower_count"@,
                Fields::empty()
                    .set("id"@, id.json_spec()),
            ),
    {
        let mut body = Body::new();
        body.insert("id", id);
        self.send("user_follower_count", body)
    }

    /// Plans a call of `dataset_follower_count`.
    ///
    /// <https://docs.ckan.org/en/2.11/api/index.html#ckan.logic.action.get.dataset_follower_count>
    pub fn dataset_follower_count(&self, id: String) -> (r: Request)
        ensures
            r@ == self.post_plan(
                "dataset_follower_count"@,
                Fields::empty()
                    .set("id"@, id.json_spec()),
            ),
    {
        let mut body = Body::new();
        body.insert("id", id);
        self.send("dataset_follower_count", body)
    }

    /// Plans a call of `group_follower_count`.
    ///
    /// <https://docs.ckan.org/en/2.11/api/index.html#ckan.logic.action.get.group_follower_count>
    pub fn group_follower_count(&self, id: String) -> (r: Request)
        ensures
            r@ == self.post_plan(
                "group_follower_count"@,
                Fields::empty()
                    .set("id"@, id.json_spec()),
            ),
    {
        let mut body = Body::new();
        body.insert("id", id);
        self.send("group_follower_count", body)
    }

    /// Plans a call of `organization_follower_count`.
    ///
    /// <https://docs.ckan.org/en/2.11/api/index.html#ckan.logic.action.get.organization_follower_count>
    pub fn organization_follower_count(&self, id: String) -> (r: Request)
        ensures
            r@ == self.post_plan(
                "organization_follower_count"@,
                Fields::empty()
                    .set("id"@, id.json_spec()),
            ),
    {
        let mut body = Body::new();
        body.insert("id", id);
        self.send("organization_follower_count", body)
    }

    /// Plans a call of `user_follower_list`.
    ///
    /// <https://docs.ckan.org/en/2.11/api/index.html#ckan.logic.action.get.user_follower_list>
    pub fn user_follower_list(&self, id: String) -> (r: Request)
        ensures
            r@ == self.post_plan("user_follower_list"@, Fields::empty().set("id"@, id.json_spec())),
    {
        let mut body = Body::new();
        body.insert("id", id);
        self.send("user_follower_list", body)
    }

    /// Plans a call of `dataset_follower_list`.
    ///
    /// <https://docs.ckan.org/en/2.11/api/index.html#ckan.logic.action.get.dataset_follower_list>
    pub fn dataset_follower_list(&self, id: String) -> (r: Request)
        ensures
            r@ == self.post_plan(
                "dataset_follower_list"@,
                Fields::empty()
                    .set("id"@, id.json_spec()),
            ),
    {
        let mut body = Body::new();
        body.insert("id", id);
        self.send("dataset_follower_list", body)
    }

    /// Plans a call of `group_follower_list`.
    ///
    /// <https://docs.ckan.org/en/2.11/api/index.html#ckan.logic.action.get.group_follower_list>
    pub fn group_follower_list(&self, id: String) -> (r: Request)
        ensures
            r@ == self.post_plan(
                "group_follower_list"@,
                Fields::empty()
                    .set("id"@, id.json_spec()),
            ),
    {
        let mut body = Body::new();
        body.insert("id", id);
        self.send("group_follower_list", body)
    }

    /// Plans a call of `am_following_user`.
    ///
    /// <https://docs.ckan.org/en/2.11/api/index.html#ckan.logic.action.get.am_following_user>
    pub fn am_following_user(&self, id: String) -> (r: Request)
        ensures
            r@ == self.post_plan("am_following_user"@, Fields::empty().set("id"@, id.json_spec())),
    {
        let mut body = Body::new();
        body.insert("id", id);
        self.send("am_following_user", body)
    }

    /// Plans a call of `am_following_dataset`.
    ///
    /// <https://docs.ckan.org/en/2.11/api/index.html#ckan.logic.action.get.am_following_dataset>
    pub fn am_following_dataset(&self, id: String) -> (r: Request)
        ensures
            r@ == self.post_plan(
                "am_following_dataset"@,
                Fields::empty()
                    .set("id"@, id.json_spec()),
            ),
    {
        let mut body = Body::new();
        body.insert("id", id);
        self.send("am_following_dataset", body)
    }

    /// Plans a call of `am_following_group`.
    ///
    /// <https://docs.ckan.org/en/2.11/api/index.html#ckan.logic.action.get.am_following_group>
    pub fn am_following_group(&self, id: String) -> (r: Request)
        ensures
            r@ == self.post_plan("am_following_group"@, Fields::empty().set("id"@, id.json_spec())),
    {
        let mut body = Body::new();
        body.insert("id", id);
        self.send("am_following_group", body)
    }

    /// Plans a call of `followee_count`.
    ///
    /// <https://docs.ckan.org/en/2.11/api/index.html#ckan.logic.action.get.followee_count>
    pub fn followee_count(&self, id: String) -> (r: Request)
        ensures
            r@ == self.post_plan("followee_count"@, Fields::empty().set("id"@, id.json_spec())),
    {
        let mut body = Body::new();
        body.insert("id", id);
        self.send("followee_count", body)
    }

    /// Plans a call of `user_followee_count`.
    ///
    /// <https://docs.ckan.org/en/2.11/api/index.html#ckan.logic.action.get.user_followee_count>
    pub fn user_followee_count(&self, id: String) -> (r: Request)
        ensures
            r@ == self.post_plan(
                "user_followee_count"@,
                Fields::empty()
                    .set("id"@, id.json_spec()),
            ),
    {
        let mut body = Body::new();
        body.insert("id", id);
        self.send("user_followee_count", body)
    }

    /// Plans a call of `dataset_followee_count`.
    ///
    /// <https://docs.ckan.org/en/2.11/api/index.html#ckan.logic.action.get.dataset_followee_count>
    pub fn dataset_followee_count(&self, id: String) -> (r: Request)
        ensures
            r@ == self.post_plan(
                "dataset_followee_count"@,
                Fields::empty()
                    .set("id"@, id.json_spec()),
            ),
    {
        let mut body = Body::new();
        body.insert("id", id);
        self.send("dataset_followee_count", body)
    }

    /// Plans a call of `group_followee_count`.
    ///
    /// <https://docs.ckan.org/en/2.11/api/index.html#ckan.logic.action.get.group_followee_count>
    pub fn group_followee_count(&self, id: String) -> (r: Request)
        ensures
            r@ == self.post_plan(
                "group_followee_count"@,
                Fields::empty()
                    .set("id"@, id.json_spec()),
            ),
    {
        let mut body = Body::new();
        body.insert("id", id);
        self.send("group_followee_count", body)
    }

    /// Plans a call of `organization_followee_count`.
    ///
    /// <https://docs.ckan.org/en/2.11/api/index.html#ckan.logic.action.get.organization_followee_count>
    pub fn organization_followee_count(&self, id: String) -> (r: Request)
        ensures
            r@ == self.post_plan(
                "organization_followee_count"@,
                Fields::empty()
                    .set("id"@, id.json_spec()),
            ),
    {
        let mut body = Body::new();
        body.insert("id", id);
        self.send("organization_followee_count", body)
    }

    /// Plans a call of `followee_list`.
    ///
    /// <https://docs.ckan.org/en/2.11/api/index.html#ckan.logic.action.get.followee_list>
    pub fn followee_list(&self, id: String, q: Option<String>) -> (r: Request)
        ensures
            r@ == self.post_plan(
                "followee_list"@,
                Fields::empty()
                    .set("id"@, id.json_spec())
                    .opt("q"@, opt_json(q)),
            ),
    {
        let mut body = Body::new();
        body.insert("id", id);
        body.opsert("q", q);
        self.send("followee_list", body)
    }

    /// Plans a call of `user_followee_list`.
    ///
    /// <https://docs.ckan.org/en/2.11/api/index.html#ckan.logic.action.get.user_followee_list>
    pub fn user_followee_list(&self, id: String) -> (r: Request)
        ensures
            r@ == self.post_plan("user_followee_list"@, Fields::empty().set("id"@, id.json_spec())),
    {
        let mut body = Body::new();
        body.insert("id", id);
        self.send("user_followee_list", body)
    }

    /// Plans a call of `dataset_followee_list`.
    ///
    /// <https://docs.ckan.org/en/2.11/api/index.html#ckan.logic.action.get.dataset_followee_list>
    pub fn dataset_followee_list(&self, id: String) -> (r: Request)
        ensures
            r@ == self.post_plan(
                "dataset_followee_list"@,
                Fields::empty()
                    .set("id"@, id.json_spec()),
            ),
    {
        let mut body = Body::new();
        body.insert("id", id);
        self.send("dataset_followee_list", body)
    }

    /// Plans a call of `group_followee_list`.
    ///
    /// <https://docs.ckan.org/en/2.11/api/index.html#ckan.logic.action.get.group_followee_list>
    pub fn group_followee_list(&self, id: String) -> (r: Request)
        ensures
            r@ == self.post_plan(
                "group_followee_list"@,
                Fields::empty()
                    .set("id"@, id.json_spec()),
            ),
    {
        let mut body = Body::new();
        body.insert("id", id);
        self.send("group_followee_list", body)
    }

    /// Plans a call of `organization_followee_list`.
    ///
    /// <https://docs.ckan.org/en/2.11/api/index.html#ckan.logic.action.get.organization_followee_list>
    pub fn organization_followee_list(&self, id: String) -> (r: Request)
        ensures
            r@ == self.post_plan(
                "organization_followee_list"@,
                Fields::empty()
                    .set("id"@, id.json_spec()),
            ),
    {
        let mut body = Body::new();
        body.insert("id", id);
        self.send("organization_followee_list", body)
    }

    /// Plans a call of `member_roles_list`.
    ///
    /// <https://docs.ckan.org/en/2.11/api/index.html#ckan.logic.action.get.member_roles_list>
    pub fn member_roles_list(&self, group_type: Option<String>) -> (r: Request)
        ensures
            r@ == self.post_plan(
                "member_roles_list"@,
                Fields::empty()
                    .opt("group_type"@, opt_json(group_type)),
            ),
    {
        let mut body = Body::new();
        body.opsert("group_type", group_type);
        self.send("member_roles_list", body)
    }

    /// Plans a call of `help_show`.
    ///
    /// <https://docs.ckan.org/en/2.11/api/index.html#ckan.logic.action.get.help_show>
    pub fn help_show(&self, name: String) -> (r: Request)
        ensures
            r@ == self.post_plan("help_show"@, Fields::empty().set("name"@, name.json_spec())),
    {
        let mut body = Body::new();
        body.insert("name", name);
        self.send("help_show", body)
    }

    /// Plans a call of `config_option_show`.
    ///
    /// <https://docs.ckan.org/en/2.11/api/index.html#ckan.logic.action.get.config_option_show>
    pub fn config_option_show(&self, key: String) -> (r: Request)
        ensures
            r@ == self.post_plan(
                "config_option_show"@,
                Fields::empty()
                    .set("key"@, key.json_spec()),
            ),
    {
        let mut body = Body::new();
        body.insert("key", key);
        self.send("config_option_show", body)
    }

    /// Plans a call of `config_option_list`, which takes no argument.
    ///
    /// <https://docs.ckan.org/en/2.11/api/index.html#ckan.logic.action.get.config_option_list>
    pub fn config_option_list(&self) -> (r: Request)
        ensures
            r@ == self.read_plan("config_option_list"@),
    {
        self.read("config_option_list")
    }

    /// Plans a call of `job_list`.
    ///
    /// <https://docs.ckan.org/en/2.11/api/index.html#ckan.logic.action.get.job_list>
    pub fn job_list(&self, queues: Option<Vec<String>>) -> (r: Request)
        ensures
            r@ == self.post_plan("job_list"@, Fields::empty().opt("queues"@, opt_json(queues))),
    {
        let mut body = Body::new();
        body.opsert("queues", queues);
        self.send("job_list", body)
    }

    /// Plans a call of `job_show`.
    ///
    /// <https://docs.ckan.org/en/2.11/api/index.html#ckan.logic.action.get.job_show>
    pub fn job_show(&self, id: String) -> (r: Request)
        ensures
            r@ == self.post_plan("job_show"@, Fields::empty().set("id"@, id.json_spec())),
    {
        let mut body = Body::new();
        body.insert("id", id);
        self.send("job_show", body)
    }

    /// Plans a call of `api_token_list`.
    ///
    /// <https://docs.ckan.org/en/2.11/api/index.html#ckan.logic.action.get.api_token_list>
    pub fn api_token_list(&self, user_id: String) -> (r: Request)
        ensures
            r@ == self.post_plan(
                "api_token_list"@,
                Fields::empty()
                    .set("user_id"@, user_id.json_spec()),
            ),
    {
        let mut body = Body::new();
        body.insert("user_id", user_id);
        self.send("api_token_list", body)
    }
}

} // verus!
