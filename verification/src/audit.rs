//! The audit trail: what is recorded of security events (logins, denied
//! accesses) and of functional events (changes to users, subjects and
//! balances).

use crate::text::{i32_to_string, signed_decimal_text};
use vstd::prelude::*;

verus! {

/// Kinds of events of the audit trail.
#[derive(Clone, Copy, Debug, PartialEq, Eq, Structural)]
pub enum EventType {
    Login,
    Logout,
    LoginFailed,
    Create,
    Update,
    Delete,
    Error,
    AccessDenied,
}

/// The text by which each kind of event is stored.
pub open spec fn event_type_text(event_type: EventType) -> Seq<char> {
    match event_type {
        EventType::Login => "LOGIN"@,
        EventType::Logout => "LOGOUT"@,
        EventType::LoginFailed => "LOGIN_FAILED"@,
        EventType::Create => "CREATE"@,
        EventType::Update => "UPDATE"@,
        EventType::Delete => "DELETE"@,
        EventType::Error => "ERROR"@,
        EventType::AccessDenied => "ACCESS_DENIED"@,
    }
}

impl EventType {
    pub fn as_str(&self) -> (text: &'static str)
        ensures
            text@ == event_type_text(*self),
    {
        match self {
            EventType::Login => "LOGIN",
            EventType::Logout => "LOGOUT",
            EventType::LoginFailed => "LOGIN_FAILED",
            EventType::Create => "CREATE",
            EventType::Update => "UPDATE",
            EventType::Delete => "DELETE",
            EventType::Error => "ERROR",
            EventType::AccessDenied => "ACCESS_DENIED",
        }
    }
}

/// Categories of the audit trail.
#[derive(Clone, Copy, Debug, PartialEq, Eq, Structural)]
pub enum AuditCategory {
    Security,
    Functional,
}

/// The text by which each category is stored.
pub open spec fn category_text(category: AuditCategory) -> Seq<char> {
    match category {
        AuditCategory::Security => "SECURITY"@,
        AuditCategory::Functional => "FUNCTIONAL"@,
    }
}

impl AuditCategory {
    pub fn as_str(&self) -> (text: &'static str)
        ensures
            text@ == category_text(*self),
    {
        match self {
            AuditCategory::Security => "SECURITY",
            AuditCategory::Functional => "FUNCTIONAL",
        }
    }
}

/// Kinds of entities that an event affects.
#[derive(Clone, Copy, Debug, PartialEq, Eq, Structural)]
pub enum EntityType {
    User,
    Subject,
    Balance,
    Session,
}

/// The text by which each kind of entity is stored.
pub open spec fn entity_type_text(entity_type: EntityType) -> Seq<char> {
    match entity_type {
        EntityType::User => "USER"@,
        EntityType::Subject => "SUBJECT"@,
        EntityType::Balance => "BALANCE"@,
        EntityType::Session => "SESSION"@,
    }
}

impl EntityType {
    pub fn as_str(&self) -> (text: &'static str)
        ensures
            text@ == entity_type_text(*self),
    {
        match self {
            EntityType::User => "USER",
            EntityType::Subject => "SUBJECT",
            EntityType::Balance => "BALANCE",
            EntityType::Session => "SESSION",
        }
    }
}

/// Whether the audit trail records client addresses.
#[derive(Clone, Copy, Debug, PartialEq, Eq)]
pub struct AuditSettings {
    pub log_ip: bool,
}

impl Default for AuditSettings {
    /// Addresses are recorded unless switched off.
    fn default() -> (settings: AuditSettings)
        ensures
            settings.log_ip,
    {
        AuditSettings { log_ip: true }
    }
}

/// Updates whether client addresses are recorded.
pub fn set_audit_log_ip(settings: &mut AuditSettings, enabled: bool)
    ensures
        final(settings).log_ip == enabled,
{
    settings.log_ip = enabled;
}

/// Whether client addresses are recorded.
pub fn get_audit_log_ip(settings: &AuditSettings) -> (enabled: bool)
    ensures
        enabled == settings.log_ip,
{
    settings.log_ip
}

/// The text of an optional string.
pub open spec fn text_view(text: Option<String>) -> Option<Seq<char>> {
    match text {
        Some(held) => Some(held@),
        None => None,
    }
}

/// An event of the audit trail, as a value of the model.
pub struct AuditEvent {
    pub user_id: Option<i32>,
    pub user_name: Option<Seq<char>>,
    pub event_type: EventType,
    pub category: AuditCategory,
    pub entity_type: Option<EntityType>,
    pub entity_id: Option<i32>,
    pub description: Seq<char>,
    pub ip_address: Option<Seq<char>>,
    pub user_agent: Option<Seq<char>>,
    pub success: bool,
    pub error_message: Option<Seq<char>>,
}

/// Builder of a new record of the audit trail.
#[derive(Clone, Debug)]
pub struct AuditLogBuilder {
    pub user_id: Option<i32>,
    pub user_name: Option<String>,
    pub event_type: EventType,
    pub category: AuditCategory,
    pub entity_type: Option<EntityType>,
    pub entity_id: Option<i32>,
    pub description: String,
    pub ip_address: Option<String>,
    pub user_agent: Option<String>,
    pub success: bool,
    pub error_message: Option<String>,
}

impl View for AuditLogBuilder {
    type V = AuditEvent;

    open spec fn view(&self) -> AuditEvent {
        AuditEvent {
            user_id: self.user_id,
            user_name: text_view(self.user_name),
            event_type: self.event_type,
            category: self.category,
            entity_type: self.entity_type,
            entity_id: self.entity_id,
            description: self.description@,
            ip_address: text_view(self.ip_address),
            user_agent: text_view(self.user_agent),
            success: self.success,
            error_message: text_view(self.error_message),
        }
    }
}

/// An event of which only the kind, the category and the description are
/// known: it succeeded and names no user, entity or client.
pub open spec fn plain_event(
    event_type: EventType,
    category: AuditCategory,
    description: Seq<char>,
) -> AuditEvent {
    AuditEvent {
        user_id: None,
        user_name: None,
        event_type,
        category,
        entity_type: None,
        entity_id: None,
        description,
        ip_address: None,
        user_agent: None,
        success: true,
        error_message: None,
    }
}

/// A record as it is stored.
#[derive(Clone, Debug)]
pub struct AuditRecord {
    pub user_id: Option<i32>,
    pub user_name: Option<String>,
    pub event_type: String,
    pub category: String,
    pub entity_type: Option<String>,
    pub entity_id: Option<i32>,
    pub description: String,
    pub ip_address: Option<String>,
    pub user_agent: Option<String>,
    pub success: bool,
    pub error_message: Option<String>,
}

impl AuditRecord {
    /// The record stores the event; the client address only where
    /// addresses are recorded.
    pub open spec fn stores(self, event: AuditEvent, log_ip: bool) -> bool {
        &&& self.user_id == event.user_id
        &&& text_view(self.user_name) == event.user_name
        &&& self.event_type@ == event_type_text(event.event_type)
        &&& self.category@ == category_text(event.category)
        &&& text_view(self.entity_type) == match event.entity_type {
            Some(entity_type) => Some(entity_type_text(entity_type)),
            None => None,
        }
        &&& self.entity_id == event.entity_id
        &&& self.description@ == event.description
        &&& text_view(self.ip_address) == if log_ip {
            event.ip_address
        } else {
            None
        }
        &&& text_view(self.user_agent) == event.user_agent
        &&& self.success == event.success
        &&& text_view(self.error_message) == event.error_message
    }
}

impl AuditLogBuilder {
    /// Creates the builder of an event of the audit trail.
    pub fn new(event_type: EventType, category: AuditCategory, description: String) -> (builder:
        AuditLogBuilder)
        ensures
            builder@ == plain_event(event_type, category, description@),
    {
        AuditLogBuilder {
            user_id: None,
            user_name: None,
            event_type,
            category,
            entity_type: None,
            entity_id: None,
            description,
            ip_address: None,
            user_agent: None,
            success: true,
            error_message: None,
        }
    }

    /// Sets the user that acted.
    pub fn user(self, user_id: i32, user_name: &str) -> (builder: AuditLogBuilder)
        ensures
            builder@ == (AuditEvent {
                user_id: Some(user_id),
                user_name: Some(user_name@),
                ..self@
            }),
    {
        let mut builder = self;
        builder.user_id = Some(user_id);
        builder.user_name = Some(String::from_str(user_name));
        builder
    }

    /// Sets the entity that was affected.
    pub fn entity(self, entity_type: EntityType, entity_id: i32) -> (builder: AuditLogBuilder)
        ensures
            builder@ == (AuditEvent {
                entity_type: Some(entity_type),
                entity_id: Some(entity_id),
                ..self@
            }),
    {
        let mut builder = self;
        builder.entity_type = Some(entity_type);
        builder.entity_id = Some(entity_id);
        builder
    }

    /// Sets the address of the client.
    pub fn ip(self, ip_address: &str) -> (builder: AuditLogBuilder)
        ensures
            builder@ == (AuditEvent { ip_address: Some(ip_address@), ..self@ }),
    {
        let mut builder = self;
        builder.ip_address = Some(String::from_str(ip_address));
        builder
    }

    /// Sets the user agent of the client.
    pub fn user_agent(self, user_agent: &str) -> (builder: AuditLogBuilder)
        ensures
            builder@ == (AuditEvent { user_agent: Some(user_agent@), ..self@ }),
    {
        let mut builder = self;
        builder.user_agent = Some(String::from_str(user_agent));
        builder
    }

    /// Marks the event as failed.
    pub fn failed(self, error_message: &str) -> (builder: AuditLogBuilder)
        ensures
            builder@ == (AuditEvent {
                success: false,
                error_message: Some(error_message@),
                ..self@
            }),
    {
        let mut builder = self;
        builder.success = false;
        builder.error_message = Some(String::from_str(error_message));
        builder
    }

    /// The record to store for the event. The client address is left out
    /// where addresses are not recorded.
    pub fn into_record(self, log_ip: bool) -> (record: AuditRecord)
        ensures
            record.stores(self@, log_ip),
    {
        let ip_address: Option<String> = if log_ip {
            self.ip_address
        } else {
            None
        };
        let entity_type: Option<String> = match self.entity_type {
            Some(entity_type) => Some(String::from_str(entity_type.as_str())),
            None => None,
        };
        AuditRecord {
            user_id: self.user_id,
            user_name: self.user_name,
            event_type: String::from_str(self.event_type.as_str()),
            category: String::from_str(self.category.as_str()),
            entity_type,
            entity_id: self.entity_id,
            description: self.description,
            ip_address,
            user_agent: self.user_agent,
            success: self.success,
            error_message: self.error_message,
        }
    }
}

/// `before`, a name in quotes, and `after`.
pub open spec fn about_one(before: Seq<char>, name: Seq<char>, after: Seq<char>) -> Seq<char> {
    before + seq!['\''] + name + seq!['\''] + after
}

/// `before`, a name in quotes, `between`, a second name in quotes, and
/// `after`.
pub open spec fn about_two(
    before: Seq<char>,
    first: Seq<char>,
    between: Seq<char>,
    second: Seq<char>,
    after: Seq<char>,
) -> Seq<char> {
    before + seq!['\''] + first + seq!['\''] + between + seq!['\''] + second + seq!['\''] + after
}

/// The note of an identifier that closes some descriptions.
pub open spec fn id_note(id: int) -> Seq<char> {
    " (ID: "@ + signed_decimal_text(id) + ")"@
}

fn describe_one(before: &str, name: &str, after: &str) -> (text: String)
    ensures
        text@ == about_one(before@, name@, after@),
{
    let mut text = String::from_str(before);
    text.append("'");
    text.append(name);
    text.append("'");
    text.append(after);
    proof {
        reveal_strlit("'");
    }
    text
}

fn describe_two(before: &str, first: &str, between: &str, second: &str, after: &str) -> (text:
    String)
    ensures
        text@ == about_two(before@, first@, between@, second@, after@),
{
    let mut text = String::from_str(before);
    text.append("'");
    text.append(first);
    text.append("'");
    text.append(between);
    text.append("'");
    text.append(second);
    text.append("'");
    text.append(after);
    proof {
        reveal_strlit("'");
    }
    text
}

fn note_of_id(id: i32) -> (text: String)
    ensures
        text@ == id_note(id as int),
{
    let mut text = String::from_str(" (ID: ");
    text.append(i32_to_string(id).as_str());
    text.append(")");
    text
}

/// The event of a successful login.
pub fn log_login_success(user_id: i32, user_name: &str, ip_address: &str) -> (builder:
    AuditLogBuilder)
    ensures
        builder@ == (AuditEvent {
            user_id: Some(user_id),
            user_name: Some(user_name@),
            entity_type: Some(EntityType::Session),
            entity_id: Some(user_id),
            ip_address: Some(ip_address@),
            ..plain_event(
                EventType::Login,
                AuditCategory::Functional,
                about_one("Usuario "@, user_name@, " inició sesión exitosamente"@),
            )
        }),
{
    AuditLogBuilder::new(
        EventType::Login,
        AuditCategory::Functional,
        describe_one("Usuario ", user_name, " inició sesión exitosamente"),
    ).user(user_id, user_name).entity(EntityType::Session, user_id).ip(ip_address)
}

/// The event of a failed login attempt. No user is known, since the login
/// failed: the name that was tried is kept as the user agent.
pub fn log_login_failed(user_name: &str, ip_address: &str, reason: &str) -> (builder:
    AuditLogBuilder)
    ensures
        builder@ == (AuditEvent {
            user_agent: Some(user_name@),
            ip_address: Some(ip_address@),
            success: false,
            error_message: Some(reason@),
            ..plain_event(
                EventType::LoginFailed,
                AuditCategory::Security,
                about_one("Intento de inicio de sesión fallido para usuario "@, user_name@, ""@),
            )
        }),
{
    AuditLogBuilder::new(
        EventType::LoginFailed,
        AuditCategory::Security,
        describe_one("Intento de inicio de sesión fallido para usuario ", user_name, ""),
    ).user_agent(user_name).ip(ip_address).failed(reason)
}

/// The event of a logout.
pub fn log_logout(user_id: i32, user_name: &str, ip_address: &str) -> (builder: AuditLogBuilder)
    ensures
        builder@ == (AuditEvent {
            user_id: Some(user_id),
            user_name: Some(user_name@),
            entity_type: Some(EntityType::Session),
            entity_id: Some(user_id),
            ip_address: Some(ip_address@),
            ..plain_event(
                EventType::Logout,
                AuditCategory::Functional,
                about_one("Usuario "@, user_name@, " cerró sesión"@),
            )
        }),
{
    AuditLogBuilder::new(
        EventType::Logout,
        AuditCategory::Functional,
        describe_one("Usuario ", user_name, " cerró sesión"),
    ).user(user_id, user_name).entity(EntityType::Session, user_id).ip(ip_address)
}

/// The event of an actor changing an entity: who did it, to which entity,
/// from which address, with the given description.
pub open spec fn change_event(
    event_type: EventType,
    category: AuditCategory,
    description: Seq<char>,
    actor_id: i32,
    actor_name: Seq<char>,
    entity_type: EntityType,
    entity_id: i32,
    ip_address: Seq<char>,
) -> AuditEvent {
    AuditEvent {
        user_id: Some(actor_id),
        user_name: Some(actor_name),
        entity_type: Some(entity_type),
        entity_id: Some(entity_id),
        ip_address: Some(ip_address),
        ..plain_event(event_type, category, description)
    }
}

fn change_builder(
    event_type: EventType,
    category: AuditCategory,
    description: String,
    actor_id: i32,
    actor_name: &str,
    entity_type: EntityType,
    entity_id: i32,
    ip_address: &str,
) -> (builder: AuditLogBuilder)
    ensures
        builder@ == change_event(
            event_type,
            category,
            description@,
            actor_id,
            actor_name@,
            entity_type,
            entity_id,
            ip_address@,
        ),
{
    AuditLogBuilder::new(event_type, category, description).user(actor_id, actor_name).entity(
        entity_type,
        entity_id,
    ).ip(ip_address)
}

/// The event of the creation of a user.
pub fn log_user_created(
    admin_id: i32,
    admin_name: &str,
    new_user_id: i32,
    new_user_name: &str,
    ip_address: &str,
) -> (builder: AuditLogBuilder)
    ensures
        builder@ == change_event(
            EventType::Create,
            AuditCategory::Security,
            about_two("Admin "@, admin_name@, " creó el usuario "@, new_user_name@, ""@),
            admin_id,
            admin_name@,
            EntityType::User,
            new_user_id,
            ip_address@,
        ),
{
    change_builder(
        EventType::Create,
        AuditCategory::Security,
        describe_two("Admin ", admin_name, " creó el usuario ", new_user_name, ""),
        admin_id,
        admin_name,
        EntityType::User,
        new_user_id,
        ip_address,
    )
}

/// The event of the modification of a user.
pub fn log_user_modified(
    admin_id: i32,
    admin_name: &str,
    modified_user_id: i32,
    modified_user_name: &str,
    ip_address: &str,
) -> (builder: AuditLogBuilder)
    ensures
        builder@ == change_event(
            EventType::Update,
            AuditCategory::Security,
            about_two("Admin "@, admin_name@, " modificó el usuario "@, modified_user_name@, ""@),
            admin_id,
            admin_name@,
            EntityType::User,
            modified_user_id,
            ip_address@,
        ),
{
    change_builder(
        EventType::Update,
        AuditCategory::Security,
        describe_two("Admin ", admin_name, " modificó el usuario ", modified_user_name, ""),
        admin_id,
        admin_name,
        EntityType::User,
        modified_user_id,
        ip_address,
    )
}

/// The event of the deletion of a user.
pub fn log_user_deleted(
    admin_id: i32,
    admin_name: &str,
    deleted_user_id: i32,
    deleted_user_name: &str,
    ip_address: &str,
) -> (builder: AuditLogBuilder)
    ensures
        builder@ == change_event(
            EventType::Delete,
            AuditCategory::Security,
            about_two(
                "Admin "@,
                admin_name@,
                " eliminó el usuario "@,
                deleted_user_name@,
                id_note(deleted_user_id as int),
            ),
            admin_id,
            admin_name@,
            EntityType::User,
            deleted_user_id,
            ip_address@,
        ),
{
    let note = note_of_id(deleted_user_id);
    change_builder(
        EventType::Delete,
        AuditCategory::Security,
        describe_two("Admin ", admin_name, " eliminó el usuario ", deleted_user_name, note.as_str()),
        admin_id,
        admin_name,
        EntityType::User,
        deleted_user_id,
        ip_address,
    )
}

/// The event of the creation of a subject.
pub fn log_subject_created(
    leader_id: i32,
    leader_name: &str,
    subject_id: i32,
    subject_name: &str,
    ip_address: &str,
) -> (builder: AuditLogBuilder)
    ensures
        builder@ == change_event(
            EventType::Create,
            AuditCategory::Functional,
            about_two("Leader "@, leader_name@, " creó la asignatura "@, subject_name@, ""@),
            leader_id,
            leader_name@,
            EntityType::Subject,
            subject_id,
            ip_address@,
        ),
{
    change_builder(
        EventType::Create,
        AuditCategory::Functional,
        describe_two("Leader ", leader_name, " creó la asignatura ", subject_name, ""),
        leader_id,
        leader_name,
        EntityType::Subject,
        subject_id,
        ip_address,
    )
}

/// The event of the modification of a subject.
pub fn log_subject_modified(
    user_id: i32,
    user_name: &str,
    subject_id: i32,
    subject_name: &str,
    ip_address: &str,
) -> (builder: AuditLogBuilder)
    ensures
        builder@ == change_event(
            EventType::Update,
            AuditCategory::Functional,
            about_two("Usuario "@, user_name@, " modificó la asignatura "@, subject_name@, ""@),
            user_id,
            user_name@,
            EntityType::Subject,
            subject_id,
            ip_address@,
        ),
{
    change_builder(
        EventType::Update,
        AuditCategory::Functional,
        describe_two("Usuario ", user_name, " modificó la asignatura ", subject_name, ""),
        user_id,
        user_name,
        EntityType::Subject,
        subject_id,
        ip_address,
    )
}

/// The event of the deletion of a subject.
pub fn log_subject_deleted(
    leader_id: i32,
    leader_name: &str,
    subject_id: i32,
    subject_name: &str,
    ip_address: &str,
) -> (builder: AuditLogBuilder)
    ensures
        builder@ == change_event(
            EventType::Delete,
            AuditCategory::Functional,
            about_two(
                "Leader "@,
                leader_name@,
                " eliminó la asignatura "@,
                subject_name@,
                id_note(subject_id as int),
            ),
            leader_id,
            leader_name@,
            EntityType::Subject,
            subject_id,
            ip_address@,
        ),
{
    let note = note_of_id(subject_id);
    change_builder(
        EventType::Delete,
        AuditCategory::Functional,
        describe_two("Leader ", leader_name, " eliminó la asignatura ", subject_name, note.as_str()),
        leader_id,
        leader_name,
        EntityType::Subject,
        subject_id,
        ip_address,
    )
}

/// The user of an event where both the identifier and the name are known.
pub open spec fn known_user(user_id: Option<i32>, user_name: Option<Seq<char>>) -> bool {
    user_id is Some && user_name is Some
}

/// A failed security event from an address, by a user if one is known.
pub open spec fn failure_event(
    event_type: EventType,
    description: Seq<char>,
    user_id: Option<i32>,
    user_name: Option<Seq<char>>,
    ip_address: Seq<char>,
    error_message: Seq<char>,
) -> AuditEvent {
    AuditEvent {
        user_id: if known_user(user_id, user_name) {
            user_id
        } else {
            None
        },
        user_name: if known_user(user_id, user_name) {
            user_name
        } else {
            None
        },
        ip_address: Some(ip_address),
        success: false,
        error_message: Some(error_message),
        ..plain_event(event_type, AuditCategory::Security, description)
    }
}

fn failure_builder(
    event_type: EventType,
    description: String,
    user_id: Option<i32>,
    user_name: Option<&str>,
    ip_address: &str,
    error_message: &str,
) -> (builder: AuditLogBuilder)
    ensures
        builder@ == failure_event(
            event_type,
            description@,
            user_id,
            match user_name {
                Some(name) => Some(name@),
                None => None,
            },
            ip_address@,
            error_message@,
        ),
{
    let builder = AuditLogBuilder::new(event_type, AuditCategory::Security, description).ip(
        ip_address,
    ).failed(error_message);
    match user_id {
        Some(id) => match user_name {
            Some(name) => builder.user(id, name),
            None => builder,
        },
        None => builder,
    }
}

/// What is recorded as the error of a denied access.
pub const INSUFFICIENT_PERMISSIONS: &'static str = "Permisos insuficientes";

/// The event of a denied access to a resource.
pub fn log_access_denied(
    user_id: Option<i32>,
    user_name: Option<&str>,
    resource: &str,
    ip_address: &str,
) -> (builder: AuditLogBuilder)
    ensures
        builder@ == failure_event(
            EventType::AccessDenied,
            "Acceso denegado a recurso: "@ + resource@,
            user_id,
            match user_name {
                Some(name) => Some(name@),
                None => None,
            },
            ip_address@,
            INSUFFICIENT_PERMISSIONS@,
        ),
{
    let mut description = String::from_str("Acceso denegado a recurso: ");
    description.append(resource);
    failure_builder(
        EventType::AccessDenied,
        description,
        user_id,
        user_name,
        ip_address,
        INSUFFICIENT_PERMISSIONS,
    )
}

/// The event of an error of the system.
pub fn log_error(
    user_id: Option<i32>,
    user_name: Option<&str>,
    error_description: &str,
    ip_address: &str,
) -> (builder: AuditLogBuilder)
    ensures
        builder@ == failure_event(
            EventType::Error,
            error_description@,
            user_id,
            match user_name {
                Some(name) => Some(name@),
                None => None,
            },
            ip_address@,
            error_description@,
        ),
{
    failure_builder(
        EventType::Error,
        String::from_str(error_description),
        user_id,
        user_name,
        ip_address,
        error_description,
    )
}

} // verus!
