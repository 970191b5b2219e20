//! The actions that delete, purge, revoke or unfollow.

use crate::body::{opt_json, Body, Fields};
use crate::client::CKAN;
use crate::json::IntoJson;
use crate::request::Request;
use vstd::prelude::*;

verus! {

impl CKAN {
    /// Plans a call of `user_delete`.
    ///
    /// <https://docs.ckan.org/en/2.11/api/index.html#ckan.logic.action.delete.user_delete>
    pub fn user_delete(&self, id: String) -> (r: Request)
        ensures
            r@ == self.post_plan("user_delete"@, Fields::empty().set("id"@, id.json_spec())),
    {
        let mut body = Body::new();
        body.insert("id", id);
        self.send("user_delete", body)
    }

    /// Plans a call of `package_delete`.
    ///
    /// <https://docs.ckan.org/en/2.11/api/index.html#ckan.logic.action.delete.package_delete>
    pub fn package_delete(&self, id: String) -> (r: Request)
        ensures
            r@ == self.post_plan("package_delete"@, Fields::empty().set("id"@, id.json_spec())),
    {
        let mut body = Body::new();
        body.insert("id", id);
        self.send("package_delete", body)
    }

    /// Plans a call of `dataset_purge`.
    ///
    /// <https://docs.ckan.org/en/2.11/api/index.html#ckan.logic.action.delete.dataset_purge>
    pub fn dataset_purge(&self, id: String) -> (r: Request)
        ensures
            r@ == self.post_plan("dataset_purge"@, Fields::empty().set("id"@, id.json_spec())),
    {
        let mut body = Body::new();
        body.insert("id", id);
        self.send("dataset_purge", body)
    }

    /// Plans a call of `resource_delete`.
    ///
    /// <https://docs.ckan.org/en/2.11/api/index.html#ckan.logic.action.delete.resource_delete>
    pub fn resource_delete(&self, id: String) -> (r: Request)
        ensures
            r@ == self.post_plan("resource_delete"@, Fields::empty().set("id"@, id.json_spec())),
    {
        let mut body = Body::new();
        body.insert("id", id);
        self.send("resource_delete", body)
    }

    /// Plans a call of `resource_view_delete`.
    ///
    /// <https://docs.ckan.org/en/2.11/api/index.html#ckan.logic.action.delete.resource_view_delete>
    pub fn resource_view_delete(&self, id: String) -> (r: Request)
        ensures
            r@ == self.post_plan(
                "resource_view_delete"@,
                Fields::empty()
                    .set("id"@, id.json_spec()),
            ),
    {
        let mut body = Body::new();
        body.insert("id", id);
        self.send("resource_view_delete", body)
    }

    /// Plans a call of `resource_view_clear`.
    ///
    /// <https://docs.ckan.org/en/2.11/api/index.html#ckan.logic.action.delete.resource_view_clear>
    pub fn resource_view_clear(&self, view_types: Option<Vec<String>>) -> (r: Request)
        ensures
            r@ == self.post_plan(
                "resource_view_clear"@,
                Fields::empty()
                    .opt("view_types"@, opt_json(view_types)),
            ),
    {
        let mut body = Body::new();
        body.opsert("view_types", view_types);
        self.send("resource_view_clear", body)
    }

    /// Plans a call of `package_relationship_delete`.
    ///
    /// <https://docs.ckan.org/en/2.11/api/index.html#ckan.logic.action.delete.package_relationship_delete>
    pub fn package_relationship_delete(
        &self,
        subject: String,
        object: String,
        _type: String,
    ) -> (r: Request)
        ensures
            r@ == self.post_plan(
                "package_relationship_delete"@,
                Fields::empty()
                    .set("subject"@, subject.json_spec())
                    .set("object"@, object.json_spec())
                    .set("type"@, _type.json_spec()),
            ),
    {
        let mut body = Body::new();
        body.insert("subject", subject);
        body.insert("object", object);
        body.insert("type", _type);
        self.send("package_relationship_delete", body)
    }

    /// Plans a call of `member_delete`.
    ///
    /// <https://docs.ckan.org/en/2.11/api/index.html#ckan.logic.action.delete.member_delete>
    pub fn member_delete(&self, id: String, object: String, object_type: String) -> (r: Request)
        ensures
            r@ == self.post_plan(
                "member_delete"@,
                Fields::empty()
                    .set("id"@, id.json_spec())
                    .set("object"@, object.json_spec())
                    .set("object_type"@, object_type.json_spec()),
            ),
    {
        let mut body = Body::new();
        body.insert("id", id);
        body.insert("object", object);
        body.insert("object_type", object_type);
        self.send("member_delete", body)
    }

    /// Plans a call of `package_collaborator_delete`.
    ///
    /// <https://docs.ckan.org/en/2.11/api/index.html#ckan.logic.action.delete.package_collaborator_delete>
    pub fn package_collaborator_delete(&self, id: String, user_id: String) -> (r: Request)
        ensures
            r@ == self.post_plan(
                "package_collaborator_delete"@,
                Fields::empty()
                    .set("id"@, id.json_spec())
                    .set("user_id"@, user_id.json_spec()),
            ),
    {
        let mut body = Body::new();
        body.insert("id", id);
        body.insert("user_id", user_id);
        self.send("package_collaborator_delete", body)
    }

    /// Plans a call of `group_delete`.
    ///
    /// <https://docs.ckan.org/en/2.11/api/index.html#ckan.logic.action.delete.group_delete>
    pub fn group_delete(&self, id: String) -> (r: Request)
        ensures
            r@ == self.post_plan("group_delete"@, Fields::empty().set("id"@, id.json_spec())),
    {
        let mut body = Body::new();
        body.insert("id", id);
        self.send("group_delete", body)
    }

    /// Plans a call of `organization_delete`.
    ///
    /// <https://docs.ckan.org/en/2.11/api/index.html#ckan.logic.action.delete.organization_delete>
    pub fn organization_delete(&self, id: String) -> (r: Request)
        ensures
            r@ == self.post_plan(
                "organization_delete"@,
                Fields::empty()
                    .set("id"@, id.json_spec()),
            ),
    {
        let mut body = Body::new();
        body.insert("id", id);
        self.send("organization_delete", body)
    }

    /// Plans a call of `group_purge`.
    ///
    /// <https://docs.ckan.org/en/2.11/api/index.html#ckan.logic.action.delete.group_purge>
    pub fn group_purge(&self, id: String) -> (r: Request)
        ensures
            r@ == self.post_plan("group_purge"@, Fields::empty().set("id"@, id.json_spec())),
    {
        let mut body = Body::new();
        body.insert("id", id);
        self.send("group_purge", body)
    }

    /// Plans a call of `organization_purge`.
    ///
    /// <https://docs.ckan.org/en/2.11/api/index.html#ckan.logic.action.delete.organization_purge>
    pub fn organization_purge(&self, id: String) -> (r: Request)
        ensures
            r@ == self.post_plan("organization_purge"@, Fields::empty().set("id"@, id.json_spec())),
    {
        let mut body = Body::new();
        body.insert("id", id);
        self.send("organization_purge", body)
    }

    /// Plans a call of `task_status_delete`.
    ///
    /// <https://docs.ckan.org/en/2.11/api/index.html#ckan.logic.action.delete.task_status_delete>
    pub fn task_status_delete(&self, id: String) -> (r: Request)
        ensures
            r@ == self.post_plan("task_status_delete"@, Fields::empty().set("id"@, id.json_spec())),
    {
        let mut body = Body::new();
        body.insert("id", id);
        self.send("task_status_delete", body)
    }

    /// Plans a call of `vocabulary_delete`.
    ///
    /// <https://docs.ckan.org/en/2.11/api/index.html#ckan.logic.action.delete.vocabulary_delete>
    pub fn vocabulary_delete(&self, id: String) -> (r: Request)
        ensures
            r@ == self.post_plan("vocabulary_delete"@, Fields::empty().set("id"@, id.json_spec())),
    {
        let mut body = Body::new();
        body.insert("id", id);
        self.send("vocabulary_delete", body)
    }

    /// Plans a call of `tag_delete`.
    ///
    /// <https://docs.ckan.org/en/2.11/api/index.html#ckan.logic.action.delete.tag_delete>
    pub fn tag_delete(&self, id: String, vocabulary_id: String) -> (r: Request)
        ensures
            r@ == self.post_plan(
                "tag_delete"@,
                Fields::empty()
                    .set("id"@, id.json_spec())
                    .set("vocabulary_id"@, vocabulary_id.json_spec()),
            ),
    {
        let mut body = Body::new();
        body.insert("id", id);
        body.insert("vocabulary_id", vocabulary_id);
        self.send("tag_delete", body)
    }

    /// Plans a call of `unfollow_user`.
    ///
    /// <https://docs.ckan.org/en/2.11/api/index.html#ckan.logic.action.delete.unfollow_user>
    pub fn unfollow_user(&self, id: String) -> (r: Request)
        ensures
            r@ == self.post_plan("unfollow_user"@, Fields::empty().set("id"@, id.json_spec())),
    {
        let mut body = Body::new();
        body.insert("id", id);
        self.send("unfollow_user", body)
    }

    /// Plans a call of `unfollow_dataset`.
    ///
    /// <https://docs.ckan.org/en/2.11/api/index.html#ckan.logic.action.delete.unfollow_dataset>
    pub fn unfollow_dataset(&self, id: String) -> (r: Request)
        ensures
            r@ == self.post_plan("unfollow_dataset"@, Fields::empty().set("id"@, id.json_spec())),
    {
        let mut body = Body::new();
        body.insert("id", id);
        self.send("unfollow_dataset", body)
    }

    /// Plans a call of `group_member_delete`.
    ///
    /// <https://docs.ckan.org/en/2.11/api/index.html#ckan.logic.action.delete.group_member_delete>
    pub fn group_member_delete(&self, id: String, username: String) -> (r: Request)
        ensures
            r@ == self.post_plan(
                "group_member_delete"@,
                Fields::empty()
                    .set("id"@, id.json_spec())
                    .set("username"@, username.json_spec()),
            ),
    {
        let mut body = Body::new();
        body.insert("id", id);
        body.insert("username", username);
        self.send("group_member_delete", body)
    }

    /// Plans a call of `organization_member_delete`.
    ///
    /// <https://docs.ckan.org/en/2.11/api/index.html#ckan.logic.action.delete.organization_member_delete>
    pub fn organization_member_delete(&self, id: String, username: String) -> (r: Request)
        ensures
            r@ == self.post_plan(
                "organization_member_delete"@,
                Fields::empty()
                    .set("id"@, id.json_spec())
                    .set("username"@, username.json_spec()),
            ),
    {
        let mut body = Body::new();
        body.insert("id", id);
        body.insert("username", username);
        self.send("organization_member_delete", body)
    }

    /// Plans a call of `unfollow_group`.
    ///
    /// <https://docs.ckan.org/en/2.11/api/index.html#ckan.logic.action.delete.unfollow_group>
    pub fn unfollow_group(&self, id: String) -> (r: Request)
        ensures
            r@ == self.post_plan("unfollow_group"@, Fields::empty().set("id"@, id.json_spec())),
    {
        let mut body = Body::new();
        body.insert("id", id);
        self.send("unfollow_group", body)
    }

    /// Plans a call of `job_clear`.
    ///
    /// <https://docs.ckan.org/en/2.11/api/index.html#ckan.logic.action.delete.job_clear>
    pub fn job_clear(&self, queues: Option<Vec<String>>) -> (r: Request)
        ensures
            r@ == self.post_plan("job_clear"@, Fields::empty().opt("queues"@, opt_json(queues))),
    {
        let mut body = Body::new();
        body.opsert("queues", queues);
        self.send("job_clear", body)
    }

    /// Plans a call of `job_cancel`.
    ///
    /// <https://docs.ckan.org/en/2.11/api/index.html#ckan.logic.action.delete.job_cancel>
    pub fn job_cancel(&self, id: String) -> (r: Request)
        ensures
            r@ == self.post_plan("job_cancel"@, Fields::empty().set("id"@, id.json_spec())),
    {
        let mut body = Body::new();
        body.insert("id", id);
        self.send("job_cancel", body)
    }

    /// Plans a call of `api_token_revoke`.
    ///
    /// <https://docs.ckan.org/en/2.11/api/index.html#ckan.logic.action.delete.api_token_revoke>
    pub fn api_token_revoke(&self, token: String, jti: Option<String>) -> (r: Request)
        ensures
            r@ == self.post_plan(
                "api_token_revoke"@,
                Fields::empty()
                    .set("token"@, token.json_spec())
                    .opt("jti"@, opt_json(jti)),
            ),
    {
        let mut body = Body::new();
        body.insert("token", token);
        body.opsert("jti", jti);
        self.send("api_token_revoke", body)
    }
}

} // verus!
