//! The protocol's messages for settings and sources, catalog detail pages,
//! radio stations and tag edits, with their conversions to and from the
//! `api` types. Every value survives api -> proto -> api unchanged.

use crate::api;
use crate::catalog_messages::{
    catalog_shelf_from_proto, catalog_shelf_to_proto, law_catalog_shelf_round_trip, same_shelf, shelf_read,
    shelf_sent, CatalogShelf,
};
use crate::messages::{
    copy_values,
    copy_opt_text, copy_texts, law_track_info_round_trip, same_track_info, track_info_from_proto, track_info_read,
    track_info_sent, track_info_to_proto, TrackInfo,
};
use crate::proto::{
    catalog_item_kind_from_proto, catalog_item_kind_to_proto, integration_kind_from_proto,
    integration_kind_to_proto, law_catalog_item_kind_round_trip, law_integration_kind_round_trip,
    law_music_service_round_trip, music_service_from_proto, music_service_to_proto,
    spec_catalog_item_kind_from_proto, spec_catalog_item_kind_to_proto, spec_integration_kind_from_proto,
    spec_integration_kind_to_proto, spec_music_service_from_proto, spec_music_service_to_proto,
};
use crate::proto::{
    law_ytdlp_format_round_trip, spec_ytdlp_format_from_proto, spec_ytdlp_format_to_proto, ytdlp_format_from_proto,
    ytdlp_format_to_proto,
};
use crate::status::{json_error, json_error_text, json_parses};
use crate::text::push_str;
use vstd::prelude::*;

verus! {

/// Wire form of [`api::LocalSourceDraft`].
#[derive(Clone, Debug, PartialEq, Eq)]
pub struct LocalSourceDraft {
    pub id: Option<String>,
    pub name: String,
    pub directories: Vec<String>,
}

/// `wire` is the wire form of `value`.
pub open spec fn local_source_draft_sent(value: api::LocalSourceDraft, wire: LocalSourceDraft) -> bool {
    &&& wire.id == value.id
    &&& wire.name == value.name
    &&& wire.directories@ == value.directories@
}

/// `value` is what `wire` reads as.
pub open spec fn local_source_draft_read(wire: LocalSourceDraft, value: api::LocalSourceDraft) -> bool {
    &&& value.id == wire.id
    &&& value.name == wire.name
    &&& value.directories@ == wire.directories@
}

/// Two values with the same fields, lists compared place by place.
pub open spec fn same_local_source_draft(a: api::LocalSourceDraft, b: api::LocalSourceDraft) -> bool {
    &&& a.id == b.id
    &&& a.name == b.name
    &&& a.directories@ == b.directories@
}

pub fn local_source_draft_to_proto(value: &api::LocalSourceDraft) -> (res: LocalSourceDraft)
    ensures
        local_source_draft_sent(*value, res),
{
    LocalSourceDraft {
        id: copy_opt_text(&value.id),
        name: value.name.clone(),
        directories: copy_texts(&value.directories),
    }
}

pub fn local_source_draft_from_proto(value: &LocalSourceDraft) -> (res: api::LocalSourceDraft)
    ensures
        local_source_draft_read(*value, res),
{
    api::LocalSourceDraft {
        id: copy_opt_text(&value.id),
        name: value.name.clone(),
        directories: copy_texts(&value.directories),
    }
}

/// Every `LocalSourceDraft` survives api -> proto -> api unchanged.
pub proof fn law_local_source_draft_round_trip(value: api::LocalSourceDraft, wire: LocalSourceDraft, back: api::LocalSourceDraft)
    requires
        local_source_draft_sent(value, wire),
        local_source_draft_read(wire, back),
    ensures
        same_local_source_draft(value, back),
{
}

/// Wire form of [`api::ServerDraft`]; `service` is its wire number.
#[derive(Clone, Debug, PartialEq, Eq)]
pub struct ServerDraft {
    pub id: Option<String>,
    pub name: String,
    pub url: String,
    pub service: i32,
    pub browser: Option<String>,
    pub anonymous: bool,
    pub storefront: Option<String>,
    pub language: Option<String>,
}

/// `wire` is the wire form of `value`.
pub open spec fn server_draft_sent(value: api::ServerDraft, wire: ServerDraft) -> bool {
    &&& wire.id == value.id
    &&& wire.name == value.name
    &&& wire.url == value.url
    &&& wire.service == spec_music_service_to_proto(value.service).spec_number()
    &&& wire.browser == value.browser
    &&& wire.anonymous == value.anonymous
    &&& wire.storefront == value.storefront
    &&& wire.language == value.language
}

/// `value` is what `wire` reads as.
pub open spec fn server_draft_read(wire: ServerDraft, value: api::ServerDraft) -> bool {
    &&& value.id == wire.id
    &&& value.name == wire.name
    &&& value.url == wire.url
    &&& value.service == spec_music_service_from_proto(wire.service)
    &&& value.browser == wire.browser
    &&& value.anonymous == wire.anonymous
    &&& value.storefront == wire.storefront
    &&& value.language == wire.language
}

/// Two values with the same fields, lists compared place by place.
pub open spec fn same_server_draft(a: api::ServerDraft, b: api::ServerDraft) -> bool {
    &&& a.id == b.id
    &&& a.name == b.name
    &&& a.url == b.url
    &&& a.service == b.service
    &&& a.browser == b.browser
    &&& a.anonymous == b.anonymous
    &&& a.storefront == b.storefront
    &&& a.language == b.language
}

pub fn server_draft_to_proto(value: &api::ServerDraft) -> (res: ServerDraft)
    ensures
        server_draft_sent(*value, res),
{
    ServerDraft {
        id: copy_opt_text(&value.id),
        name: value.name.clone(),
        url: value.url.clone(),
        service: music_service_to_proto(value.service).number(),
        browser: copy_opt_text(&value.browser),
        anonymous: value.anonymous,
        storefront: copy_opt_text(&value.storefront),
        language: copy_opt_text(&value.language),
    }
}

pub fn server_draft_from_proto(value: &ServerDraft) -> (res: api::ServerDraft)
    ensures
        server_draft_read(*value, res),
{
    api::ServerDraft {
        id: copy_opt_text(&value.id),
        name: value.name.clone(),
        url: value.url.clone(),
        service: music_service_from_proto(value.service),
        browser: copy_opt_text(&value.browser),
        anonymous: value.anonymous,
        storefront: copy_opt_text(&value.storefront),
        language: copy_opt_text(&value.language),
    }
}

/// Every `ServerDraft` survives api -> proto -> api unchanged.
pub proof fn law_server_draft_round_trip(value: api::ServerDraft, wire: ServerDraft, back: api::ServerDraft)
    requires
        server_draft_sent(value, wire),
        server_draft_read(wire, back),
    ensures
        same_server_draft(value, back),
{
    law_music_service_round_trip(value.service);
}

/// Wire form of [`api::CredentialProvision`].
#[derive(Clone, Debug, PartialEq, Eq)]
pub struct CredentialProvision {
    pub server_id: String,
    pub secret: String,
    pub user_id: Option<String>,
    pub browser: Option<String>,
}

/// `wire` is the wire form of `value`.
pub open spec fn credential_sent(value: api::CredentialProvision, wire: CredentialProvision) -> bool {
    &&& wire.server_id == value.server_id
    &&& wire.secret == value.secret
    &&& wire.user_id == value.user_id
    &&& wire.browser == value.browser
}

/// `value` is what `wire` reads as.
pub open spec fn credential_read(wire: CredentialProvision, value: api::CredentialProvision) -> bool {
    &&& value.server_id == wire.server_id
    &&& value.secret == wire.secret
    &&& value.user_id == wire.user_id
    &&& value.browser == wire.browser
}

/// Two values with the same fields, lists compared place by place.
pub open spec fn same_credential(a: api::CredentialProvision, b: api::CredentialProvision) -> bool {
    &&& a.server_id == b.server_id
    &&& a.secret == b.secret
    &&& a.user_id == b.user_id
    &&& a.browser == b.browser
}

pub fn credential_to_proto(value: &api::CredentialProvision) -> (res: CredentialProvision)
    ensures
        credential_sent(*value, res),
{
    CredentialProvision {
        server_id: value.server_id.clone(),
        secret: value.secret.clone(),
        user_id: copy_opt_text(&value.user_id),
        browser: copy_opt_text(&value.browser),
    }
}

pub fn credential_from_proto(value: &CredentialProvision) -> (res: api::CredentialProvision)
    ensures
        credential_read(*value, res),
{
    api::CredentialProvision {
        server_id: value.server_id.clone(),
        secret: value.secret.clone(),
        user_id: copy_opt_text(&value.user_id),
        browser: copy_opt_text(&value.browser),
    }
}

/// Every `CredentialProvision` survives api -> proto -> api unchanged.
pub proof fn law_credential_round_trip(value: api::CredentialProvision, wire: CredentialProvision, back: api::CredentialProvision)
    requires
        credential_sent(value, wire),
        credential_read(wire, back),
    ensures
        same_credential(value, back),
{
}

/// Wire form of [`api::SourceLoginRequest`].
#[derive(Clone, Debug, PartialEq, Eq)]
pub struct SourceLoginRequest {
    pub server_id: String,
    pub username: String,
    pub password: String,
}

/// `wire` is the wire form of `value`.
pub open spec fn source_login_sent(value: api::SourceLoginRequest, wire: SourceLoginRequest) -> bool {
    &&& wire.server_id == value.server_id
    &&& wire.username == value.username
    &&& wire.password == value.password
}

/// `value` is what `wire` reads as.
pub open spec fn source_login_read(wire: SourceLoginRequest, value: api::SourceLoginRequest) -> bool {
    &&& value.server_id == wire.server_id
    &&& value.username == wire.username
    &&& value.password == wire.password
}

/// Two values with the same fields, lists compared place by place.
pub open spec fn same_source_login(a: api::SourceLoginRequest, b: api::SourceLoginRequest) -> bool {
    &&& a.server_id == b.server_id
    &&& a.username == b.username
    &&& a.password == b.password
}

pub fn source_login_to_proto(value: &api::SourceLoginRequest) -> (res: SourceLoginRequest)
    ensures
        source_login_sent(*value, res),
{
    SourceLoginRequest {
        server_id: value.server_id.clone(),
        username: value.username.clone(),
        password: value.password.clone(),
    }
}

pub fn source_login_from_proto(value: &SourceLoginRequest) -> (res: api::SourceLoginRequest)
    ensures
        source_login_read(*value, res),
{
    api::SourceLoginRequest {
        server_id: value.server_id.clone(),
        username: value.username.clone(),
        password: value.password.clone(),
    }
}

/// Every `SourceLoginRequest` survives api -> proto -> api unchanged.
pub proof fn law_source_login_round_trip(value: api::SourceLoginRequest, wire: SourceLoginRequest, back: api::SourceLoginRequest)
    requires
        source_login_sent(value, wire),
        source_login_read(wire, back),
    ensures
        same_source_login(value, back),
{
}

/// Wire form of [`api::IntegrationCredentialStatus`]; `kind` is its wire number.
#[derive(Clone, Debug, PartialEq, Eq)]
pub struct IntegrationCredentialStatus {
    pub kind: i32,
    pub configured: bool,
}

/// `wire` is the wire form of `value`.
pub open spec fn integration_status_sent(value: api::IntegrationCredentialStatus, wire: IntegrationCredentialStatus) -> bool {
    &&& wire.kind == spec_integration_kind_to_proto(value.kind).spec_number()
    &&& wire.configured == value.configured
}

/// `value` is what `wire` reads as.
pub open spec fn integration_status_read(wire: IntegrationCredentialStatus, value: api::IntegrationCredentialStatus) -> bool {
    &&& value.kind == spec_integration_kind_from_proto(wire.kind)
    &&& value.configured == wire.configured
}

/// Two values with the same fields, lists compared place by place.
pub open spec fn same_integration_status(a: api::IntegrationCredentialStatus, b: api::IntegrationCredentialStatus) -> bool {
    &&& a.kind == b.kind
    &&& a.configured == b.configured
}

pub fn integration_status_to_proto(value: &api::IntegrationCredentialStatus) -> (res: IntegrationCredentialStatus)
    ensures
        integration_status_sent(*value, res),
{
    IntegrationCredentialStatus {
        kind: integration_kind_to_proto(value.kind).number(),
        configured: value.configured,
    }
}

pub fn integration_status_from_proto(value: &IntegrationCredentialStatus) -> (res: api::IntegrationCredentialStatus)
    ensures
        integration_status_read(*value, res),
{
    api::IntegrationCredentialStatus {
        kind: integration_kind_from_proto(value.kind),
        configured: value.configured,
    }
}

/// Every `IntegrationCredentialStatus` survives api -> proto -> api unchanged.
pub proof fn law_integration_status_round_trip(value: api::IntegrationCredentialStatus, wire: IntegrationCredentialStatus, back: api::IntegrationCredentialStatus)
    requires
        integration_status_sent(value, wire),
        integration_status_read(wire, back),
    ensures
        same_integration_status(value, back),
{
    law_integration_kind_round_trip(value.kind);
}

/// Wire form of [`api::IntegrationCredentialProvision`]; `kind` is its wire number.
#[derive(Clone, Debug, PartialEq, Eq)]
pub struct IntegrationCredentialProvision {
    pub kind: i32,
    pub token: Option<String>,
    pub api_key: Option<String>,
    pub api_secret: Option<String>,
    pub session_key: Option<String>,
}

/// `wire` is the wire form of `value`.
pub open spec fn integration_provision_sent(value: api::IntegrationCredentialProvision, wire: IntegrationCredentialProvision) -> bool {
    &&& wire.kind == spec_integration_kind_to_proto(value.kind).spec_number()
    &&& wire.token == value.token
    &&& wire.api_key == value.api_key
    &&& wire.api_secret == value.api_secret
    &&& wire.session_key == value.session_key
}

/// `value` is what `wire` reads as.
pub open spec fn integration_provision_read(wire: IntegrationCredentialProvision, value: api::IntegrationCredentialProvision) -> bool {
    &&& value.kind == spec_integration_kind_from_proto(wire.kind)
    &&& value.token == wire.token
    &&& value.api_key == wire.api_key
    &&& value.api_secret == wire.api_secret
    &&& value.session_key == wire.session_key
}

/// Two values with the same fields, lists compared place by place.
pub open spec fn same_integration_provision(a: api::IntegrationCredentialProvision, b: api::IntegrationCredentialProvision) -> bool {
    &&& a.kind == b.kind
    &&& a.token == b.token
    &&& a.api_key == b.api_key
    &&& a.api_secret == b.api_secret
    &&& a.session_key == b.session_key
}

pub fn integration_provision_to_proto(value: &api::IntegrationCredentialProvision) -> (res: IntegrationCredentialProvision)
    ensures
        integration_provision_sent(*value, res),
{
    IntegrationCredentialProvision {
        kind: integration_kind_to_proto(value.kind).number(),
        token: copy_opt_text(&value.token),
        api_key: copy_opt_text(&value.api_key),
        api_secret: copy_opt_text(&value.api_secret),
        session_key: copy_opt_text(&value.session_key),
    }
}

pub fn integration_provision_from_proto(value: &IntegrationCredentialProvision) -> (res: api::IntegrationCredentialProvision)
    ensures
        integration_provision_read(*value, res),
{
    api::IntegrationCredentialProvision {
        kind: integration_kind_from_proto(value.kind),
        token: copy_opt_text(&value.token),
        api_key: copy_opt_text(&value.api_key),
        api_secret: copy_opt_text(&value.api_secret),
        session_key: copy_opt_text(&value.session_key),
    }
}

/// Every `IntegrationCredentialProvision` survives api -> proto -> api unchanged.
pub proof fn law_integration_provision_round_trip(value: api::IntegrationCredentialProvision, wire: IntegrationCredentialProvision, back: api::IntegrationCredentialProvision)
    requires
        integration_provision_sent(value, wire),
        integration_provision_read(wire, back),
    ensures
        same_integration_provision(value, back),
{
    law_integration_kind_round_trip(value.kind);
}

/// Wire form of [`api::SourceFolderEntry`].
#[derive(Clone, Debug, PartialEq, Eq)]
pub struct SourceFolderEntry {
    pub path: String,
    pub name: String,
}

/// `wire` is the wire form of `value`.
pub open spec fn source_folder_sent(value: api::SourceFolderEntry, wire: SourceFolderEntry) -> bool {
    &&& wire.path == value.path
    &&& wire.name == value.name
}

/// `value` is what `wire` reads as.
pub open spec fn source_folder_read(wire: SourceFolderEntry, value: api::SourceFolderEntry) -> bool {
    &&& value.path == wire.path
    &&& value.name == wire.name
}

/// Two values with the same fields, lists compared place by place.
pub open spec fn same_source_folder(a: api::SourceFolderEntry, b: api::SourceFolderEntry) -> bool {
    &&& a.path == b.path
    &&& a.name == b.name
}

pub fn source_folder_to_proto(value: &api::SourceFolderEntry) -> (res: SourceFolderEntry)
    ensures
        source_folder_sent(*value, res),
{
    SourceFolderEntry {
        path: value.path.clone(),
        name: value.name.clone(),
    }
}

pub fn source_folder_from_proto(value: &SourceFolderEntry) -> (res: api::SourceFolderEntry)
    ensures
        source_folder_read(*value, res),
{
    api::SourceFolderEntry {
        path: value.path.clone(),
        name: value.name.clone(),
    }
}

/// Every `SourceFolderEntry` survives api -> proto -> api unchanged.
pub proof fn law_source_folder_round_trip(value: api::SourceFolderEntry, wire: SourceFolderEntry, back: api::SourceFolderEntry)
    requires
        source_folder_sent(value, wire),
        source_folder_read(wire, back),
    ensures
        same_source_folder(value, back),
{
}

/// Wire form of [`api::ExternalAccess`].
#[derive(Clone, Debug, PartialEq, Eq)]
pub struct ExternalAccess {
    pub kind: String,
    pub access_token: String,
    pub client_id: Option<String>,
}

/// `wire` is the wire form of `value`.
pub open spec fn external_access_sent(value: api::ExternalAccess, wire: ExternalAccess) -> bool {
    &&& wire.kind == value.kind
    &&& wire.access_token == value.access_token
    &&& wire.client_id == value.client_id
}

/// `value` is what `wire` reads as.
pub open spec fn external_access_read(wire: ExternalAccess, value: api::ExternalAccess) -> bool {
    &&& value.kind == wire.kind
    &&& value.access_token == wire.access_token
    &&& value.client_id == wire.client_id
}

/// Two values with the same fields, lists compared place by place.
pub open spec fn same_external_access(a: api::ExternalAccess, b: api::ExternalAccess) -> bool {
    &&& a.kind == b.kind
    &&& a.access_token == b.access_token
    &&& a.client_id == b.client_id
}

pub fn external_access_to_proto(value: &api::ExternalAccess) -> (res: ExternalAccess)
    ensures
        external_access_sent(*value, res),
{
    ExternalAccess {
        kind: value.kind.clone(),
        access_token: value.access_token.clone(),
        client_id: copy_opt_text(&value.client_id),
    }
}

pub fn external_access_from_proto(value: &ExternalAccess) -> (res: api::ExternalAccess)
    ensures
        external_access_read(*value, res),
{
    api::ExternalAccess {
        kind: value.kind.clone(),
        access_token: value.access_token.clone(),
        client_id: copy_opt_text(&value.client_id),
    }
}

/// Every `ExternalAccess` survives api -> proto -> api unchanged.
pub proof fn law_external_access_round_trip(value: api::ExternalAccess, wire: ExternalAccess, back: api::ExternalAccess)
    requires
        external_access_sent(value, wire),
        external_access_read(wire, back),
    ensures
        same_external_access(value, back),
{
}

/// Wire form of [`api::CatalogDetailRequest`]; `kind` is its wire number.
#[derive(Clone, Debug, PartialEq, Eq)]
pub struct CatalogDetailRequest {
    pub kind: i32,
    pub id: String,
    pub continuation: Option<String>,
}

/// `wire` is the wire form of `value`.
pub open spec fn catalog_detail_request_sent(value: api::CatalogDetailRequest, wire: CatalogDetailRequest) -> bool {
    &&& wire.kind == spec_catalog_item_kind_to_proto(value.kind).spec_number()
    &&& wire.id == value.id
    &&& wire.continuation == value.continuation
}

/// `value` is what `wire` reads as.
pub open spec fn catalog_detail_request_read(wire: CatalogDetailRequest, value: api::CatalogDetailRequest) -> bool {
    &&& value.kind == spec_catalog_item_kind_from_proto(wire.kind)
    &&& value.id == wire.id
    &&& value.continuation == wire.continuation
}

/// Two values with the same fields, lists compared place by place.
pub open spec fn same_catalog_detail_request(a: api::CatalogDetailRequest, b: api::CatalogDetailRequest) -> bool {
    &&& a.kind == b.kind
    &&& a.id == b.id
    &&& a.continuation == b.continuation
}

pub fn catalog_detail_request_to_proto(value: &api::CatalogDetailRequest) -> (res: CatalogDetailRequest)
    ensures
        catalog_detail_request_sent(*value, res),
{
    CatalogDetailRequest {
        kind: catalog_item_kind_to_proto(value.kind).number(),
        id: value.id.clone(),
        continuation: copy_opt_text(&value.continuation),
    }
}

pub fn catalog_detail_request_from_proto(value: &CatalogDetailRequest) -> (res: api::CatalogDetailRequest)
    ensures
        catalog_detail_request_read(*value, res),
{
    api::CatalogDetailRequest {
        kind: catalog_item_kind_from_proto(value.kind),
        id: value.id.clone(),
        continuation: copy_opt_text(&value.continuation),
    }
}

/// Every `CatalogDetailRequest` survives api -> proto -> api unchanged.
pub proof fn law_catalog_detail_request_round_trip(value: api::CatalogDetailRequest, wire: CatalogDetailRequest, back: api::CatalogDetailRequest)
    requires
        catalog_detail_request_sent(value, wire),
        catalog_detail_request_read(wire, back),
    ensures
        same_catalog_detail_request(value, back),
{
    law_catalog_item_kind_round_trip(value.kind);
}

fn track_info_list_to_proto(items: &Vec<api::TrackInfo>) -> (res: Vec<TrackInfo>)
    ensures
        res@.len() == items@.len(),
        forall|i: int| 0 <= i < items@.len() ==> track_info_sent(#[trigger] items@[i], res@[i]),
{
    let mut out: Vec<TrackInfo> = Vec::new();
    let mut i: usize = 0;
    while i < items.len()
        invariant
            i <= items@.len(),
            out@.len() == i,
            forall|k: int| 0 <= k < i ==> track_info_sent(#[trigger] items@[k], out@[k]),
        decreases items@.len() - i,
    {
        out.push(track_info_to_proto(&items[i]));
        i = i + 1;
    }
    out
}

fn track_info_list_from_proto(items: &Vec<TrackInfo>) -> (res: Vec<api::TrackInfo>)
    ensures
        res@.len() == items@.len(),
        forall|i: int| 0 <= i < items@.len() ==> track_info_read(#[trigger] items@[i], res@[i]),
{
    let mut out: Vec<api::TrackInfo> = Vec::new();
    let mut i: usize = 0;
    while i < items.len()
        invariant
            i <= items@.len(),
            out@.len() == i,
            forall|k: int| 0 <= k < i ==> track_info_read(#[trigger] items@[k], out@[k]),
        decreases items@.len() - i,
    {
        out.push(track_info_from_proto(&items[i]));
        i = i + 1;
    }
    out
}

fn catalog_shelf_list_to_proto(items: &Vec<api::CatalogShelf>) -> (res: Vec<CatalogShelf>)
    ensures
        res@.len() == items@.len(),
        forall|i: int| 0 <= i < items@.len() ==> shelf_sent(#[trigger] items@[i], res@[i]),
{
    let mut out: Vec<CatalogShelf> = Vec::new();
    let mut i: usize = 0;
    while i < items.len()
        invariant
            i <= items@.len(),
            out@.len() == i,
            forall|k: int| 0 <= k < i ==> shelf_sent(#[trigger] items@[k], out@[k]),
        decreases items@.len() - i,
    {
        out.push(catalog_shelf_to_proto(&items[i]));
        i = i + 1;
    }
    out
}

fn catalog_shelf_list_from_proto(items: &Vec<CatalogShelf>) -> (res: Vec<api::CatalogShelf>)
    ensures
        res@.len() == items@.len(),
        forall|i: int| 0 <= i < items@.len() ==> shelf_read(#[trigger] items@[i], res@[i]),
{
    let mut out: Vec<api::CatalogShelf> = Vec::new();
    let mut i: usize = 0;
    while i < items.len()
        invariant
            i <= items@.len(),
            out@.len() == i,
            forall|k: int| 0 <= k < i ==> shelf_read(#[trigger] items@[k], out@[k]),
        decreases items@.len() - i,
    {
        out.push(catalog_shelf_from_proto(&items[i]));
        i = i + 1;
    }
    out
}

/// Wire form of [`api::CatalogDetail`]; `kind` is its wire number.
#[derive(Clone, Debug, PartialEq, Eq)]
pub struct CatalogDetail {
    pub kind: i32,
    pub id: String,
    pub title: String,
    pub subtitle: Option<String>,
    pub description: Option<String>,
    pub artwork: Option<String>,
    pub playback_id: Option<String>,
    pub year: Option<String>,
    pub tracks: Vec<TrackInfo>,
    pub shelves: Vec<CatalogShelf>,
    pub continuation: Option<String>,
}

/// `wire` is the wire form of `value`.
pub open spec fn catalog_detail_sent(value: api::CatalogDetail, wire: CatalogDetail) -> bool {
    &&& wire.kind == spec_catalog_item_kind_to_proto(value.kind).spec_number()
    &&& wire.id == value.id
    &&& wire.title == value.title
    &&& wire.subtitle == value.subtitle
    &&& wire.description == value.description
    &&& wire.artwork == value.artwork
    &&& wire.playback_id == value.playback_id
    &&& wire.year == value.year
    &&& wire.tracks@.len() == value.tracks@.len()
    &&& forall|i: int| 0 <= i < value.tracks@.len() ==> track_info_sent(#[trigger] value.tracks@[i], wire.tracks@[i])
    &&& wire.shelves@.len() == value.shelves@.len()
    &&& forall|i: int| 0 <= i < value.shelves@.len() ==> shelf_sent(#[trigger] value.shelves@[i], wire.shelves@[i])
    &&& wire.continuation == value.continuation
}

/// `value` is what `wire` reads as.
pub open spec fn catalog_detail_read(wire: CatalogDetail, value: api::CatalogDetail) -> bool {
    &&& value.kind == spec_catalog_item_kind_from_proto(wire.kind)
    &&& value.id == wire.id
    &&& value.title == wire.title
    &&& value.subtitle == wire.subtitle
    &&& value.description == wire.description
    &&& value.artwork == wire.artwork
    &&& value.playback_id == wire.playback_id
    &&& value.year == wire.year
    &&& value.tracks@.len() == wire.tracks@.len()
    &&& forall|i: int| 0 <= i < wire.tracks@.len() ==> track_info_read(#[trigger] wire.tracks@[i], value.tracks@[i])
    &&& value.shelves@.len() == wire.shelves@.len()
    &&& forall|i: int| 0 <= i < wire.shelves@.len() ==> shelf_read(#[trigger] wire.shelves@[i], value.shelves@[i])
    &&& value.continuation == wire.continuation
}

/// Two values with the same fields, lists compared place by place.
pub open spec fn same_catalog_detail(a: api::CatalogDetail, b: api::CatalogDetail) -> bool {
    &&& a.kind == b.kind
    &&& a.id == b.id
    &&& a.title == b.title
    &&& a.subtitle == b.subtitle
    &&& a.description == b.description
    &&& a.artwork == b.artwork
    &&& a.playback_id == b.playback_id
    &&& a.year == b.year
    &&& a.tracks@.len() == b.tracks@.len()
    &&& forall|i: int| 0 <= i < a.tracks@.len() ==> same_track_info(#[trigger] a.tracks@[i], b.tracks@[i])
    &&& a.shelves@.len() == b.shelves@.len()
    &&& forall|i: int| 0 <= i < a.shelves@.len() ==> same_shelf(#[trigger] a.shelves@[i], b.shelves@[i])
    &&& a.continuation == b.continuation
}

pub fn catalog_detail_to_proto(value: &api::CatalogDetail) -> (res: CatalogDetail)
    ensures
        catalog_detail_sent(*value, res),
{
    CatalogDetail {
        kind: catalog_item_kind_to_proto(value.kind).number(),
        id: value.id.clone(),
        title: value.title.clone(),
        subtitle: copy_opt_text(&value.subtitle),
        description: copy_opt_text(&value.description),
        artwork: copy_opt_text(&value.artwork),
        playback_id: copy_opt_text(&value.playback_id),
        year: copy_opt_text(&value.year),
        tracks: track_info_list_to_proto(&value.tracks),
        shelves: catalog_shelf_list_to_proto(&value.shelves),
        continuation: copy_opt_text(&value.continuation),
    }
}

pub fn catalog_detail_from_proto(value: &CatalogDetail) -> (res: api::CatalogDetail)
    ensures
        catalog_detail_read(*value, res),
{
    api::CatalogDetail {
        kind: catalog_item_kind_from_proto(value.kind),
        id: value.id.clone(),
        title: value.title.clone(),
        subtitle: copy_opt_text(&value.subtitle),
        description: copy_opt_text(&value.description),
        artwork: copy_opt_text(&value.artwork),
        playback_id: copy_opt_text(&value.playback_id),
        year: copy_opt_text(&value.year),
        tracks: track_info_list_from_proto(&value.tracks),
        shelves: catalog_shelf_list_from_proto(&value.shelves),
        continuation: copy_opt_text(&value.continuation),
    }
}

/// Every `CatalogDetail` survives api -> proto -> api unchanged.
pub proof fn law_catalog_detail_round_trip(value: api::CatalogDetail, wire: CatalogDetail, back: api::CatalogDetail)
    requires
        catalog_detail_sent(value, wire),
        catalog_detail_read(wire, back),
    ensures
        same_catalog_detail(value, back),
{
    law_catalog_item_kind_round_trip(value.kind);
    assert forall|i: int| 0 <= i < value.tracks@.len() implies same_track_info(#[trigger] value.tracks@[i], back.tracks@[i]) by {
        law_track_info_round_trip(value.tracks@[i], wire.tracks@[i], back.tracks@[i]);
    }
    assert forall|i: int| 0 <= i < value.shelves@.len() implies same_shelf(#[trigger] value.shelves@[i], back.shelves@[i]) by {
        law_catalog_shelf_round_trip(value.shelves@[i], wire.shelves@[i], back.shelves@[i]);
    }
}

/// Wire form of [`api::RadioStreamInfo`].
#[derive(Clone, Debug, PartialEq, Eq)]
pub struct RadioStreamInfo {
    pub id: String,
    pub name: String,
    pub url: String,
    pub icon: Option<String>,
}

/// `wire` is the wire form of `value`.
pub open spec fn radio_stream_sent(value: api::RadioStreamInfo, wire: RadioStreamInfo) -> bool {
    &&& wire.id == value.id
    &&& wire.name == value.name
    &&& wire.url == value.url
    &&& wire.icon == value.icon
}

/// `value` is what `wire` reads as.
pub open spec fn radio_stream_read(wire: RadioStreamInfo, value: api::RadioStreamInfo) -> bool {
    &&& value.id == wire.id
    &&& value.name == wire.name
    &&& value.url == wire.url
    &&& value.icon == wire.icon
}

/// Two values with the same fields, lists compared place by place.
pub open spec fn same_radio_stream(a: api::RadioStreamInfo, b: api::RadioStreamInfo) -> bool {
    &&& a.id == b.id
    &&& a.name == b.name
    &&& a.url == b.url
    &&& a.icon == b.icon
}

fn radio_stream_to_proto(value: &api::RadioStreamInfo) -> (res: RadioStreamInfo)
    ensures
        radio_stream_sent(*value, res),
{
    RadioStreamInfo {
        id: value.id.clone(),
        name: value.name.clone(),
        url: value.url.clone(),
        icon: copy_opt_text(&value.icon),
    }
}

fn radio_stream_from_proto(value: &RadioStreamInfo) -> (res: api::RadioStreamInfo)
    ensures
        radio_stream_read(*value, res),
{
    api::RadioStreamInfo {
        id: value.id.clone(),
        name: value.name.clone(),
        url: value.url.clone(),
        icon: copy_opt_text(&value.icon),
    }
}

/// Every `RadioStreamInfo` survives api -> proto -> api unchanged.
pub proof fn law_radio_stream_round_trip(value: api::RadioStreamInfo, wire: RadioStreamInfo, back: api::RadioStreamInfo)
    requires
        radio_stream_sent(value, wire),
        radio_stream_read(wire, back),
    ensures
        same_radio_stream(value, back),
{
}

fn radio_stream_list_to_proto(items: &Vec<api::RadioStreamInfo>) -> (res: Vec<RadioStreamInfo>)
    ensures
        res@.len() == items@.len(),
        forall|i: int| 0 <= i < items@.len() ==> radio_stream_sent(#[trigger] items@[i], res@[i]),
{
    let mut out: Vec<RadioStreamInfo> = Vec::new();
    let mut i: usize = 0;
    while i < items.len()
        invariant
            i <= items@.len(),
            out@.len() == i,
            forall|k: int| 0 <= k < i ==> radio_stream_sent(#[trigger] items@[k], out@[k]),
        decreases items@.len() - i,
    {
        out.push(radio_stream_to_proto(&items[i]));
        i = i + 1;
    }
    out
}

fn radio_stream_list_from_proto(items: &Vec<RadioStreamInfo>) -> (res: Vec<api::RadioStreamInfo>)
    ensures
        res@.len() == items@.len(),
        forall|i: int| 0 <= i < items@.len() ==> radio_stream_read(#[trigger] items@[i], res@[i]),
{
    let mut out: Vec<api::RadioStreamInfo> = Vec::new();
    let mut i: usize = 0;
    while i < items.len()
        invariant
            i <= items@.len(),
            out@.len() == i,
            forall|k: int| 0 <= k < i ==> radio_stream_read(#[trigger] items@[k], out@[k]),
        decreases items@.len() - i,
    {
        out.push(radio_stream_from_proto(&items[i]));
        i = i + 1;
    }
    out
}

/// Wire form of [`api::RadioStationInfo`].
#[derive(Clone, Debug, PartialEq, Eq)]
pub struct RadioStationInfo {
    pub id: String,
    pub name: String,
    pub description: String,
    pub icon: String,
    pub artwork: Option<String>,
    pub tags: Vec<String>,
    pub streams: Vec<RadioStreamInfo>,
    pub pinned: bool,
}

/// `wire` is the wire form of `value`.
pub open spec fn radio_station_sent(value: api::RadioStationInfo, wire: RadioStationInfo) -> bool {
    &&& wire.id == value.id
    &&& wire.name == value.name
    &&& wire.description == value.description
    &&& wire.icon == value.icon
    &&& wire.artwork == value.artwork
    &&& wire.tags@ == value.tags@
    &&& wire.streams@.len() == value.streams@.len()
    &&& forall|i: int| 0 <= i < value.streams@.len() ==> radio_stream_sent(#[trigger] value.streams@[i], wire.streams@[i])
    &&& wire.pinned == value.pinned
}

/// `value` is what `wire` reads as.
pub open spec fn radio_station_read(wire: RadioStationInfo, value: api::RadioStationInfo) -> bool {
    &&& value.id == wire.id
    &&& value.name == wire.name
    &&& value.description == wire.description
    &&& value.icon == wire.icon
    &&& value.artwork == wire.artwork
    &&& value.tags@ == wire.tags@
    &&& value.streams@.len() == wire.streams@.len()
    &&& forall|i: int| 0 <= i < wire.streams@.len() ==> radio_stream_read(#[trigger] wire.streams@[i], value.streams@[i])
    &&& value.pinned == wire.pinned
}

/// Two values with the same fields, lists compared place by place.
pub open spec fn same_radio_station(a: api::RadioStationInfo, b: api::RadioStationInfo) -> bool {
    &&& a.id == b.id
    &&& a.name == b.name
    &&& a.description == b.description
    &&& a.icon == b.icon
    &&& a.artwork == b.artwork
    &&& a.tags@ == b.tags@
    &&& a.streams@.len() == b.streams@.len()
    &&& forall|i: int| 0 <= i < a.streams@.len() ==> same_radio_stream(#[trigger] a.streams@[i], b.streams@[i])
    &&& a.pinned == b.pinned
}

pub fn radio_station_to_proto(value: &api::RadioStationInfo) -> (res: RadioStationInfo)
    ensures
        radio_station_sent(*value, res),
{
    RadioStationInfo {
        id: value.id.clone(),
        name: value.name.clone(),
        description: value.description.clone(),
        icon: value.icon.clone(),
        artwork: copy_opt_text(&value.artwork),
        tags: copy_texts(&value.tags),
        streams: radio_stream_list_to_proto(&value.streams),
        pinned: value.pinned,
    }
}

pub fn radio_station_from_proto(value: &RadioStationInfo) -> (res: api::RadioStationInfo)
    ensures
        radio_station_read(*value, res),
{
    api::RadioStationInfo {
        id: value.id.clone(),
        name: value.name.clone(),
        description: value.description.clone(),
        icon: value.icon.clone(),
        artwork: copy_opt_text(&value.artwork),
        tags: copy_texts(&value.tags),
        streams: radio_stream_list_from_proto(&value.streams),
        pinned: value.pinned,
    }
}

/// Every `RadioStationInfo` survives api -> proto -> api unchanged.
pub proof fn law_radio_station_round_trip(value: api::RadioStationInfo, wire: RadioStationInfo, back: api::RadioStationInfo)
    requires
        radio_station_sent(value, wire),
        radio_station_read(wire, back),
    ensures
        same_radio_station(value, back),
{
    assert forall|i: int| 0 <= i < value.streams@.len() implies same_radio_stream(#[trigger] value.streams@[i], back.streams@[i]) by {
        law_radio_stream_round_trip(value.streams@[i], wire.streams@[i], back.streams@[i]);
    }
}

/// Wire form of [`api::RadioRegistryInfo`].
#[derive(Clone, Debug, PartialEq, Eq)]
pub struct RadioRegistryInfo {
    pub url: String,
    pub enabled: bool,
    pub built_in: bool,
}

/// `wire` is the wire form of `value`.
pub open spec fn radio_registry_sent(value: api::RadioRegistryInfo, wire: RadioRegistryInfo) -> bool {
    &&& wire.url == value.url
    &&& wire.enabled == value.enabled
    &&& wire.built_in == value.built_in
}

/// `value` is what `wire` reads as.
pub open spec fn radio_registry_read(wire: RadioRegistryInfo, value: api::RadioRegistryInfo) -> bool {
    &&& value.url == wire.url
    &&& value.enabled == wire.enabled
    &&& value.built_in == wire.built_in
}

/// Two values with the same fields, lists compared place by place.
pub open spec fn same_radio_registry(a: api::RadioRegistryInfo, b: api::RadioRegistryInfo) -> bool {
    &&& a.url == b.url
    &&& a.enabled == b.enabled
    &&& a.built_in == b.built_in
}

pub fn radio_registry_to_proto(value: &api::RadioRegistryInfo) -> (res: RadioRegistryInfo)
    ensures
        radio_registry_sent(*value, res),
{
    RadioRegistryInfo {
        url: value.url.clone(),
        enabled: value.enabled,
        built_in: value.built_in,
    }
}

pub fn radio_registry_from_proto(value: &RadioRegistryInfo) -> (res: api::RadioRegistryInfo)
    ensures
        radio_registry_read(*value, res),
{
    api::RadioRegistryInfo {
        url: value.url.clone(),
        enabled: value.enabled,
        built_in: value.built_in,
    }
}

/// Every `RadioRegistryInfo` survives api -> proto -> api unchanged.
pub proof fn law_radio_registry_round_trip(value: api::RadioRegistryInfo, wire: RadioRegistryInfo, back: api::RadioRegistryInfo)
    requires
        radio_registry_sent(value, wire),
        radio_registry_read(wire, back),
    ensures
        same_radio_registry(value, back),
{
}

/// Wire form of [`api::TrackMetadataPatch`].
#[derive(Clone, Debug, PartialEq, Eq)]
pub struct TrackMetadataPatch {
    pub key: String,
    pub title: Option<String>,
    pub artist: Option<String>,
    pub album: Option<String>,
    pub track_number: Option<u32>,
    pub clear_track_number: bool,
    pub disc_number: Option<u32>,
    pub clear_disc_number: bool,
}

/// `wire` is the wire form of `value`.
pub open spec fn metadata_patch_sent(value: api::TrackMetadataPatch, wire: TrackMetadataPatch) -> bool {
    &&& wire.key == value.key
    &&& wire.title == value.title
    &&& wire.artist == value.artist
    &&& wire.album == value.album
    &&& wire.track_number == value.track_number
    &&& wire.clear_track_number == value.clear_track_number
    &&& wire.disc_number == value.disc_number
    &&& wire.clear_disc_number == value.clear_disc_number
}

/// `value` is what `wire` reads as.
pub open spec fn metadata_patch_read(wire: TrackMetadataPatch, value: api::TrackMetadataPatch) -> bool {
    &&& value.key == wire.key
    &&& value.title == wire.title
    &&& value.artist == wire.artist
    &&& value.album == wire.album
    &&& value.track_number == wire.track_number
    &&& value.clear_track_number == wire.clear_track_number
    &&& value.disc_number == wire.disc_number
    &&& value.clear_disc_number == wire.clear_disc_number
}

/// Two values with the same fields, lists compared place by place.
pub open spec fn same_metadata_patch(a: api::TrackMetadataPatch, b: api::TrackMetadataPatch) -> bool {
    &&& a.key == b.key
    &&& a.title == b.title
    &&& a.artist == b.artist
    &&& a.album == b.album
    &&& a.track_number == b.track_number
    &&& a.clear_track_number == b.clear_track_number
    &&& a.disc_number == b.disc_number
    &&& a.clear_disc_number == b.clear_disc_number
}

pub fn metadata_patch_to_proto(value: &api::TrackMetadataPatch) -> (res: TrackMetadataPatch)
    ensures
        metadata_patch_sent(*value, res),
{
    TrackMetadataPatch {
        key: value.key.clone(),
        title: copy_opt_text(&value.title),
        artist: copy_opt_text(&value.artist),
        album: copy_opt_text(&value.album),
        track_number: value.track_number,
        clear_track_number: value.clear_track_number,
        disc_number: value.disc_number,
        clear_disc_number: value.clear_disc_number,
    }
}

pub fn metadata_patch_from_proto(value: &TrackMetadataPatch) -> (res: api::TrackMetadataPatch)
    ensures
        metadata_patch_read(*value, res),
{
    api::TrackMetadataPatch {
        key: value.key.clone(),
        title: copy_opt_text(&value.title),
        artist: copy_opt_text(&value.artist),
        album: copy_opt_text(&value.album),
        track_number: value.track_number,
        clear_track_number: value.clear_track_number,
        disc_number: value.disc_number,
        clear_disc_number: value.clear_disc_number,
    }
}

/// Every `TrackMetadataPatch` survives api -> proto -> api unchanged.
pub proof fn law_metadata_patch_round_trip(value: api::TrackMetadataPatch, wire: TrackMetadataPatch, back: api::TrackMetadataPatch)
    requires
        metadata_patch_sent(value, wire),
        metadata_patch_read(wire, back),
    ensures
        same_metadata_patch(value, back),
{
}
/// Wire form of [`api::YtdlpRequest`]; `format` is its wire number.
#[derive(Clone, Debug, PartialEq, Eq)]
pub struct YtdlpRequest {
    pub url: String,
    pub output_dir: String,
    pub format: i32,
    pub options_json: String,
}

pub open spec fn spec_ytdlp_request_to_proto(value: api::YtdlpRequest) -> YtdlpRequest {
    YtdlpRequest {
        url: value.url,
        output_dir: value.output_dir,
        format: spec_ytdlp_format_to_proto(value.format).spec_number(),
        options_json: value.options,
    }
}

/// The message a request with options that are not JSON is refused with.
pub open spec fn invalid_options_message(error: Seq<char>) -> Seq<char> {
    "invalid yt-dlp options JSON: "@ + error
}

pub fn ytdlp_request_to_proto(value: &api::YtdlpRequest) -> (res: YtdlpRequest)
    ensures
        res == spec_ytdlp_request_to_proto(*value),
{
    YtdlpRequest {
        url: value.url.clone(),
        output_dir: value.output_dir.clone(),
        format: ytdlp_format_to_proto(value.format).number(),
        options_json: value.options.clone(),
    }
}

/// Reads a request; its options must parse as JSON, else it is refused as
/// invalid input with the parser's error.
pub fn ytdlp_request_from_proto(value: &YtdlpRequest) -> (res: Result<api::YtdlpRequest, api::ApiError>)
    ensures
        match json_error_text(value.options_json@) {
            None => res == Ok::<api::YtdlpRequest, api::ApiError>(
                api::YtdlpRequest {
                    url: value.url,
                    output_dir: value.output_dir,
                    format: spec_ytdlp_format_from_proto(value.format),
                    options: value.options_json,
                },
            ),
            Some(error) => res matches Err(e) && e.code == api::ErrorCode::InvalidInput && e.message@
                == invalid_options_message(error) && e.details is None,
        },
{
    match json_error(value.options_json.as_str()) {
        None => Ok(
            api::YtdlpRequest {
                url: value.url.clone(),
                output_dir: value.output_dir.clone(),
                format: ytdlp_format_from_proto(value.format),
                options: value.options_json.clone(),
            },
        ),
        Some(error) => {
            let mut message = String::from_str("invalid yt-dlp options JSON: ");
            push_str(&mut message, error.as_str());
            Err(api::ApiError { code: api::ErrorCode::InvalidInput, message, details: None })
        },
    }
}

/// Every request whose format is known and whose options are JSON survives
/// api -> proto -> api unchanged.
pub proof fn law_ytdlp_request_round_trip(value: api::YtdlpRequest)
    requires
        value.format != api::YtdlpAudioFormat::Unknown,
        json_parses(value.options@),
    ensures
        ({
            let wire = spec_ytdlp_request_to_proto(value);
            &&& json_error_text(wire.options_json@) is None
            &&& value == api::YtdlpRequest {
                url: wire.url,
                output_dir: wire.output_dir,
                format: spec_ytdlp_format_from_proto(wire.format),
                options: wire.options_json,
            }
        }),
{
    law_ytdlp_format_round_trip(value.format);
}

/// Wire form of [`api::ConfigView`]: the settings as JSON text.
#[derive(Clone, Debug, PartialEq, Eq)]
pub struct ConfigView {
    pub config_json: String,
    pub locked_keys: Vec<String>,
}

/// The settings text a message reads as: itself when it parses as JSON,
/// else `null`.
pub open spec fn read_config(text: Seq<char>) -> Seq<char> {
    if json_parses(text) {
        text
    } else {
        "null"@
    }
}

pub fn config_view_to_proto(value: &api::ConfigView) -> (res: ConfigView)
    ensures
        res.config_json == value.config,
        res.locked_keys@ == value.locked_keys@,
{
    ConfigView { config_json: value.config.clone(), locked_keys: copy_texts(&value.locked_keys) }
}

pub fn config_view_from_proto(value: &ConfigView) -> (res: api::ConfigView)
    ensures
        res.config@ == read_config(value.config_json@),
        json_parses(value.config_json@) ==> res.config == value.config_json,
        res.locked_keys@ == value.locked_keys@,
{
    let config = match json_error(value.config_json.as_str()) {
        None => value.config_json.clone(),
        Some(_) => String::from_str("null"),
    };
    api::ConfigView { config, locked_keys: copy_texts(&value.locked_keys) }
}

/// Settings that are JSON survive api -> proto -> api unchanged.
pub proof fn law_config_view_round_trip(value: api::ConfigView)
    requires
        json_parses(value.config@),
    ensures
        read_config(value.config@) == value.config@,
{
}

/// Wire form of [`api::ArtworkTarget`], as artwork uploads and removals
/// name it.
#[derive(Clone, Debug, PartialEq, Eq)]
pub enum ArtworkTargetId {
    TrackKey(String),
    AlbumId(String),
    ArtistName(String),
    PlaylistId(String),
}

pub open spec fn spec_target_to_proto(value: api::ArtworkTarget) -> ArtworkTargetId {
    match value {
        api::ArtworkTarget::Track { key } => ArtworkTargetId::TrackKey(key),
        api::ArtworkTarget::Album { id } => ArtworkTargetId::AlbumId(id),
        api::ArtworkTarget::Artist { name } => ArtworkTargetId::ArtistName(name),
        api::ArtworkTarget::Playlist { id } => ArtworkTargetId::PlaylistId(id),
    }
}

pub open spec fn spec_target_from_proto(value: ArtworkTargetId) -> api::ArtworkTarget {
    match value {
        ArtworkTargetId::TrackKey(key) => api::ArtworkTarget::Track { key },
        ArtworkTargetId::AlbumId(id) => api::ArtworkTarget::Album { id },
        ArtworkTargetId::ArtistName(name) => api::ArtworkTarget::Artist { name },
        ArtworkTargetId::PlaylistId(id) => api::ArtworkTarget::Playlist { id },
    }
}

fn target_to_proto(value: &api::ArtworkTarget) -> (res: ArtworkTargetId)
    ensures
        res == spec_target_to_proto(*value),
{
    match value {
        api::ArtworkTarget::Track { key } => ArtworkTargetId::TrackKey(key.clone()),
        api::ArtworkTarget::Album { id } => ArtworkTargetId::AlbumId(id.clone()),
        api::ArtworkTarget::Artist { name } => ArtworkTargetId::ArtistName(name.clone()),
        api::ArtworkTarget::Playlist { id } => ArtworkTargetId::PlaylistId(id.clone()),
    }
}

fn target_from_proto(value: &ArtworkTargetId) -> (res: api::ArtworkTarget)
    ensures
        res == spec_target_from_proto(*value),
{
    match value {
        ArtworkTargetId::TrackKey(key) => api::ArtworkTarget::Track { key: key.clone() },
        ArtworkTargetId::AlbumId(id) => api::ArtworkTarget::Album { id: id.clone() },
        ArtworkTargetId::ArtistName(name) => api::ArtworkTarget::Artist { name: name.clone() },
        ArtworkTargetId::PlaylistId(id) => api::ArtworkTarget::Playlist { id: id.clone() },
    }
}

pub open spec fn spec_opt_target_to_proto(value: Option<api::ArtworkTarget>) -> Option<ArtworkTargetId> {
    match value {
        Some(t) => Some(spec_target_to_proto(t)),
        None => None,
    }
}

pub open spec fn spec_opt_target_from_proto(value: Option<ArtworkTargetId>) -> Option<api::ArtworkTarget> {
    match value {
        Some(t) => Some(spec_target_from_proto(t)),
        None => None,
    }
}

/// Wire form of [`api::ArtworkUpload`].
#[derive(Clone, Debug, PartialEq, Eq)]
pub struct ArtworkUpload {
    pub target: Option<ArtworkTargetId>,
    pub content_type: String,
    pub data: Vec<u8>,
}

pub fn artwork_upload_to_proto(value: &api::ArtworkUpload) -> (res: ArtworkUpload)
    ensures
        res.target == spec_opt_target_to_proto(value.target),
        res.content_type == value.content_type,
        res.data@ == value.data@,
{
    let target = match &value.target {
        Some(t) => Some(target_to_proto(t)),
        None => None,
    };
    ArtworkUpload { target, content_type: value.content_type.clone(), data: copy_values(&value.data) }
}

pub fn artwork_upload_from_proto(value: &ArtworkUpload) -> (res: api::ArtworkUpload)
    ensures
        res.target == spec_opt_target_from_proto(value.target),
        res.content_type == value.content_type,
        res.data@ == value.data@,
{
    let target = match &value.target {
        Some(t) => Some(target_from_proto(t)),
        None => None,
    };
    api::ArtworkUpload { target, content_type: value.content_type.clone(), data: copy_values(&value.data) }
}

/// Every artwork target survives api -> proto -> api unchanged.
pub proof fn law_artwork_target_round_trip(value: Option<api::ArtworkTarget>)
    ensures
        spec_opt_target_from_proto(spec_opt_target_to_proto(value)) == value,
{
}

/// Wire form of a request to remove custom artwork.
#[derive(Clone, Debug, PartialEq, Eq)]
pub struct RemoveArtworkRequest {
    pub target: Option<ArtworkTargetId>,
}

pub fn remove_artwork_to_proto(value: &api::ArtworkTarget) -> (res: RemoveArtworkRequest)
    ensures
        res.target == Some(spec_target_to_proto(*value)),
{
    RemoveArtworkRequest { target: Some(target_to_proto(value)) }
}

/// The target a removal names; one that names none reads as nothing.
pub fn remove_artwork_from_proto(value: &RemoveArtworkRequest) -> (res: Option<api::ArtworkTarget>)
    ensures
        res == spec_opt_target_from_proto(value.target),
{
    match &value.target {
        Some(t) => Some(target_from_proto(t)),
        None => None,
    }
}

/// Wire form of [`api::ArtworkEntity`].
#[derive(Clone, Debug, PartialEq, Eq)]
pub enum ArtworkRequestEntity {
    Track(String),
    Album(String),
    Artist(String),
    Playlist(String),
}

/// Wire form of [`api::ArtworkRequest`].
#[derive(Clone, Debug, PartialEq, Eq)]
pub struct ArtworkRequest {
    pub entity: Option<ArtworkRequestEntity>,
    pub hq: bool,
}

pub open spec fn spec_artwork_request_to_proto(value: api::ArtworkRequest) -> ArtworkRequest {
    ArtworkRequest {
        entity: match value.entity {
            Some(api::ArtworkEntity::Track { key }) => Some(ArtworkRequestEntity::Track(key)),
            Some(api::ArtworkEntity::Album { id }) => Some(ArtworkRequestEntity::Album(id)),
            Some(api::ArtworkEntity::Artist { name }) => Some(ArtworkRequestEntity::Artist(name)),
            Some(api::ArtworkEntity::Playlist { id }) => Some(ArtworkRequestEntity::Playlist(id)),
            None => None,
        },
        hq: value.hq,
    }
}

pub open spec fn spec_artwork_request_from_proto(value: ArtworkRequest) -> api::ArtworkRequest {
    api::ArtworkRequest {
        entity: match value.entity {
            Some(ArtworkRequestEntity::Track(key)) => Some(api::ArtworkEntity::Track { key }),
            Some(ArtworkRequestEntity::Album(id)) => Some(api::ArtworkEntity::Album { id }),
            Some(ArtworkRequestEntity::Artist(name)) => Some(api::ArtworkEntity::Artist { name }),
            Some(ArtworkRequestEntity::Playlist(id)) => Some(api::ArtworkEntity::Playlist { id }),
            None => None,
        },
        hq: value.hq,
    }
}

pub fn artwork_request_to_proto(value: &api::ArtworkRequest) -> (res: ArtworkRequest)
    ensures
        res == spec_artwork_request_to_proto(*value),
{
    let entity = match &value.entity {
        Some(api::ArtworkEntity::Track { key }) => Some(ArtworkRequestEntity::Track(key.clone())),
        Some(api::ArtworkEntity::Album { id }) => Some(ArtworkRequestEntity::Album(id.clone())),
        Some(api::ArtworkEntity::Artist { name }) => Some(ArtworkRequestEntity::Artist(name.clone())),
        Some(api::ArtworkEntity::Playlist { id }) => Some(ArtworkRequestEntity::Playlist(id.clone())),
        None => None,
    };
    ArtworkRequest { entity, hq: value.hq }
}

pub fn artwork_request_from_proto(value: &ArtworkRequest) -> (res: api::ArtworkRequest)
    ensures
        res == spec_artwork_request_from_proto(*value),
{
    let entity = match &value.entity {
        Some(ArtworkRequestEntity::Track(key)) => Some(api::ArtworkEntity::Track { key: key.clone() }),
        Some(ArtworkRequestEntity::Album(id)) => Some(api::ArtworkEntity::Album { id: id.clone() }),
        Some(ArtworkRequestEntity::Artist(name)) => Some(api::ArtworkEntity::Artist { name: name.clone() }),
        Some(ArtworkRequestEntity::Playlist(id)) => Some(api::ArtworkEntity::Playlist { id: id.clone() }),
        None => None,
    };
    api::ArtworkRequest { entity, hq: value.hq }
}

/// Every artwork request survives api -> proto -> api unchanged.
pub proof fn law_artwork_request_round_trip(value: api::ArtworkRequest)
    ensures
        spec_artwork_request_from_proto(spec_artwork_request_to_proto(value)) == value,
{
}

/// The payload of an [`ArtworkChange`] message.
#[derive(Clone, Debug, PartialEq, Eq)]
pub enum ArtworkChangeKind {
    Remove,
    Replace(Vec<u8>),
}

/// Wire form of a cover change other than keeping it.
#[derive(Clone, Debug, PartialEq, Eq)]
pub struct ArtworkChange {
    pub change: Option<ArtworkChangeKind>,
}

/// A cover change goes out as a message, except keeping the cover, which
/// sends none.
pub fn artwork_change_to_proto(value: &api::ArtworkChange) -> (res: Option<ArtworkChange>)
    ensures
        match *value {
            api::ArtworkChange::Keep => res is None,
            api::ArtworkChange::Remove => res == Some(ArtworkChange { change: Some(ArtworkChangeKind::Remove) }),
            api::ArtworkChange::Replace(bytes) => res matches Some(c) && (c.change matches Some(
                ArtworkChangeKind::Replace(b),
            ) && b@ == bytes@),
        },
{
    match value {
        api::ArtworkChange::Keep => None,
        api::ArtworkChange::Remove => Some(ArtworkChange { change: Some(ArtworkChangeKind::Remove) }),
        api::ArtworkChange::Replace(bytes) => Some(
            ArtworkChange { change: Some(ArtworkChangeKind::Replace(copy_values(bytes))) },
        ),
    }
}

/// The cover change a message reads as: no message, or one without a
/// payload, keeps the cover.
pub fn artwork_change_from_proto(value: Option<&ArtworkChange>) -> (res: api::ArtworkChange)
    ensures
        match value {
            Some(ArtworkChange { change: Some(ArtworkChangeKind::Remove) }) => res == api::ArtworkChange::Remove,
            Some(ArtworkChange { change: Some(ArtworkChangeKind::Replace(bytes)) }) => res matches api::ArtworkChange::Replace(b)
                && b@ == bytes@,
            _ => res == api::ArtworkChange::Keep,
        },
{
    match value {
        Some(c) => match &c.change {
            Some(ArtworkChangeKind::Remove) => api::ArtworkChange::Remove,
            Some(ArtworkChangeKind::Replace(bytes)) => api::ArtworkChange::Replace(copy_values(bytes)),
            None => api::ArtworkChange::Keep,
        },
        None => api::ArtworkChange::Keep,
    }
}

} // verus!
