//! The Sync Profile form: typed fields as the user entered them, and the
//! validation that turns them into a Sync Profile or names the first field
//! that is wrong.
use vstd::prelude::*;

use crate::desktop::ProfileWizardStep;
use crate::model::{ApplicationMode, DeletionMethod, OneWaySource, PartialTransferPolicy, SyncMode};
use crate::profile::{
    AuthorizationSnapshot, MetadataRequirements, Peer, PeerEndpoint, RetryPolicy, SshAuthentication, SshPeer, SyncOptions, SyncProfile,
    RETRY_MAX_ATTEMPTS,
};
use crate::text::{
    chars_of, decimal, decimal_text, end_from, lemma_decimal_parses, lemma_trimmed_idempotent, lemma_trimmed_lacks, same_text, one_line,
    parse_unsigned, parsed_unsigned, push_char, single_line, start_from, trim_text, trimmed,
};
use crate::workflow::{join_lines, joined, string_views};

verus! {

#[derive(Debug, Clone, Copy, PartialEq, Eq, Structural)]
pub enum EndpointKind {
    Local,
    Ssh,
}

/// The SSH authentication the user picked; a cloned endpoint whose saved
/// credential was dropped needs a new choice.
#[derive(Debug, Clone, Copy, PartialEq, Eq, Structural)]
pub enum AuthenticationForm {
    Key,
    Agent,
    InteractivePassword,
    SavedPassword,
    NeedsConfiguration,
}

/// One endpoint of the form, every field as typed.
#[derive(Debug, Clone, PartialEq, Eq)]
pub struct EndpointForm {
    pub name: String,
    pub kind: EndpointKind,
    pub local_path: String,
    pub server: String,
    pub username: String,
    pub port: String,
    pub identity: String,
    pub secret_reference: String,
    pub remote_path: String,
    pub authentication: AuthenticationForm,
}

/// Why a form, review or request was refused.
#[derive(Debug, Clone, PartialEq, Eq)]
pub enum UiValidationError {
    EmptyProfileName,
    EmptyPeerName { peer: &'static str },
    EmptyLocalPath { peer: &'static str },
    EmptySshServer,
    EmptySshUsername,
    InvalidSshPort,
    EmptySshRemotePath,
    MissingIdentity,
    SshAuthenticationRequired,
    InvalidSavedSecretReference,
    SavedSecretUnavailable,
    InvalidRetryAttempts,
    InvalidRetryDelay,
    InvalidScheduleInterval,
    InvalidScheduleTimezone,
    CloneEndpointsUnchanged,
    DuplicateEndpointPair,
    CloneAuthorizationConfirmationRequired,
    PermanentRemovalRequiresAdvanced,
    PermanentRemovalAuthorizationRequired,
    PrecheckBlocked,
    ReviewNotReady,
    StrongerConfirmationRequired,
    UnresolvedItems,
    ConflictReviewNotReady,
    ResolutionRequiresMirror,
    ProfileChangedDuringEdit,
    Resolution(String),
    Analysis(String),
    Core(String),
}

/// The text shown for a validation error.
pub open spec fn validation_message(error: UiValidationError) -> Seq<char> {
    match error {
        UiValidationError::EmptyProfileName => "Profile name is required."@,
        UiValidationError::EmptyPeerName { peer } => peer@ + " name is required."@,
        UiValidationError::EmptyLocalPath { peer } => peer@ + " folder is required."@,
        UiValidationError::EmptySshServer => "SSH server is required."@,
        UiValidationError::EmptySshUsername => "SSH username is required."@,
        UiValidationError::InvalidSshPort => "SSH port must be a number from 1 to 65535."@,
        UiValidationError::EmptySshRemotePath => "SSH remote folder is required."@,
        UiValidationError::MissingIdentity => "Key authentication requires an identity file."@,
        UiValidationError::SshAuthenticationRequired => "Choose an SSH authentication method for this cloned endpoint before saving."@,
        UiValidationError::InvalidSavedSecretReference => "Saved password authentication requires a valid keyring reference."@,
        UiValidationError::SavedSecretUnavailable => "The saved SSH credential is unavailable in the desktop keyring."@,
        UiValidationError::InvalidRetryAttempts => "Retry attempts must be a whole number from 1 to 10."@,
        UiValidationError::InvalidRetryDelay => "Retry delay must be between 0 and 3,600,000 milliseconds."@,
        UiValidationError::InvalidScheduleInterval => "Schedule interval must be a whole number from 1 minute to 7 days."@,
        UiValidationError::InvalidScheduleTimezone => "Schedule timezone must be a nonempty value of at most 128 characters."@,
        UiValidationError::CloneEndpointsUnchanged => "A cloned profile must change at least one endpoint before it can be saved."@,
        UiValidationError::DuplicateEndpointPair => "The source and destination endpoint pair is already used by another Sync Profile."@,
        UiValidationError::CloneAuthorizationConfirmationRequired => "Review and explicitly confirm the cloned profile's unattended authorization choice before saving."@,
        UiValidationError::PermanentRemovalRequiresAdvanced => "Permanent Removal is available only in Advanced Mode."@,
        UiValidationError::PermanentRemovalAuthorizationRequired => "Permanent Removal requires its separate explicit unattended authorization before saving."@,
        UiValidationError::PrecheckBlocked => "The non-mutating precheck found blockers; execution is not available."@,
        UiValidationError::ReviewNotReady => "Run Fresh Analysis before requesting Execution Confirmation."@,
        UiValidationError::StrongerConfirmationRequired => "Type the exact high-risk source path before confirming this review."@,
        UiValidationError::UnresolvedItems => "Unresolved or unsupported items must be resolved before confirmation."@,
        UiValidationError::ConflictReviewNotReady => "Run Fresh Analysis for a Mirror Sync before opening Conflict Review."@,
        UiValidationError::ResolutionRequiresMirror => "Conflict Review and Resolution Runs require Mirror Sync."@,
        UiValidationError::ProfileChangedDuringEdit => "This Sync Profile changed elsewhere. Reload it before saving your edits."@,
        UiValidationError::Resolution(message) => "Resolution Run could not proceed: "@ + message@,
        UiValidationError::Analysis(message) => "Fresh Analysis could not be completed: "@ + message@,
        UiValidationError::Core(message) => message@,
    }
}

fn joined2(first: &str, second: &str) -> (text: String)
    ensures
        text@ == first@ + second@,
{
    let mut text = String::from_str(first);
    text.append(second);
    text
}

impl UiValidationError {
    pub fn message(&self) -> (text: String)
        ensures
            text@ == validation_message(*self),
    {
        match self {
            UiValidationError::EmptyProfileName => String::from_str("Profile name is required."),
            UiValidationError::EmptyPeerName { peer } => joined2(peer, " name is required."),
            UiValidationError::EmptyLocalPath { peer } => joined2(peer, " folder is required."),
            UiValidationError::EmptySshServer => String::from_str("SSH server is required."),
            UiValidationError::EmptySshUsername => String::from_str("SSH username is required."),
            UiValidationError::InvalidSshPort => String::from_str("SSH port must be a number from 1 to 65535."),
            UiValidationError::EmptySshRemotePath => String::from_str("SSH remote folder is required."),
            UiValidationError::MissingIdentity => String::from_str("Key authentication requires an identity file."),
            UiValidationError::SshAuthenticationRequired => String::from_str("Choose an SSH authentication method for this cloned endpoint before saving."),
            UiValidationError::InvalidSavedSecretReference => String::from_str("Saved password authentication requires a valid keyring reference."),
            UiValidationError::SavedSecretUnavailable => String::from_str("The saved SSH credential is unavailable in the desktop keyring."),
            UiValidationError::InvalidRetryAttempts => String::from_str("Retry attempts must be a whole number from 1 to 10."),
            UiValidationError::InvalidRetryDelay => String::from_str("Retry delay must be between 0 and 3,600,000 milliseconds."),
            UiValidationError::InvalidScheduleInterval => String::from_str("Schedule interval must be a whole number from 1 minute to 7 days."),
            UiValidationError::InvalidScheduleTimezone => String::from_str("Schedule timezone must be a nonempty value of at most 128 characters."),
            UiValidationError::CloneEndpointsUnchanged => String::from_str("A cloned profile must change at least one endpoint before it can be saved."),
            UiValidationError::DuplicateEndpointPair => String::from_str("The source and destination endpoint pair is already used by another Sync Profile."),
            UiValidationError::CloneAuthorizationConfirmationRequired => String::from_str("Review and explicitly confirm the cloned profile's unattended authorization choice before saving."),
            UiValidationError::PermanentRemovalRequiresAdvanced => String::from_str("Permanent Removal is available only in Advanced Mode."),
            UiValidationError::PermanentRemovalAuthorizationRequired => String::from_str("Permanent Removal requires its separate explicit unattended authorization before saving."),
            UiValidationError::PrecheckBlocked => String::from_str("The non-mutating precheck found blockers; execution is not available."),
            UiValidationError::ReviewNotReady => String::from_str("Run Fresh Analysis before requesting Execution Confirmation."),
            UiValidationError::StrongerConfirmationRequired => String::from_str("Type the exact high-risk source path before confirming this review."),
            UiValidationError::UnresolvedItems => String::from_str("Unresolved or unsupported items must be resolved before confirmation."),
            UiValidationError::ConflictReviewNotReady => String::from_str("Run Fresh Analysis for a Mirror Sync before opening Conflict Review."),
            UiValidationError::ResolutionRequiresMirror => String::from_str("Conflict Review and Resolution Runs require Mirror Sync."),
            UiValidationError::ProfileChangedDuringEdit => String::from_str("This Sync Profile changed elsewhere. Reload it before saving your edits."),
            UiValidationError::Resolution(message) => joined2("Resolution Run could not proceed: ", message.as_str()),
            UiValidationError::Analysis(message) => joined2("Fresh Analysis could not be completed: ", message.as_str()),
            UiValidationError::Core(message) => message.clone(),
        }
    }
}

/// A keyring reference names a saved secret without holding it: 1 to 128
/// ASCII letters, digits, `-`, `_` or `.`.
pub open spec fn valid_secret_reference(reference: Seq<char>) -> bool {
    &&& 0 < reference.len() <= 128
    &&& forall|k: int| 0 <= k < reference.len() ==> #[trigger] reference_char(reference[k])
}

pub open spec fn reference_char(c: char) -> bool {
    ('a' <= c && c <= 'z') || ('A' <= c && c <= 'Z') || ('0' <= c && c <= '9') || c == '-' || c == '_' || c == '.'
}

pub fn secret_reference_valid(reference: &str) -> (valid: bool)
    ensures
        valid == valid_secret_reference(reference@),
{
    let chars = chars_of(reference);
    if chars.len() == 0 || chars.len() > 128 {
        return false;
    }
    let mut index: usize = 0;
    while index < chars.len()
        invariant
            chars@ == reference@,
            index <= chars@.len(),
            forall|k: int| 0 <= k < index ==> #[trigger] reference_char(chars@[k]),
        decreases chars@.len() - index,
    {
        let c = chars[index];
        if !(('a' <= c && c <= 'z') || ('A' <= c && c <= 'Z') || ('0' <= c && c <= '9') || c == '-' || c == '_' || c == '.') {
            assert(!reference_char(chars@[index as int]));
            return false;
        }
        index += 1;
    }
    true
}

/// The first field of an endpoint form that is wrong, in the order the
/// form checks them.
pub open spec fn endpoint_error(form: EndpointForm, label: &'static str) -> Option<UiValidationError> {
    if trimmed(form.name@).len() == 0 {
        Some(UiValidationError::EmptyPeerName { peer: label })
    } else {
        match form.kind {
            EndpointKind::Local => if trimmed(form.local_path@).len() == 0 {
                Some(UiValidationError::EmptyLocalPath { peer: label })
            } else {
                None
            },
            EndpointKind::Ssh => if trimmed(form.server@).len() == 0 {
                Some(UiValidationError::EmptySshServer)
            } else if trimmed(form.username@).len() == 0 {
                Some(UiValidationError::EmptySshUsername)
            } else if !(parsed_unsigned(form.port@, 65535) matches Some(port) && port > 0) {
                Some(UiValidationError::InvalidSshPort)
            } else if trimmed(form.remote_path@).len() == 0 {
                Some(UiValidationError::EmptySshRemotePath)
            } else {
                match form.authentication {
                    AuthenticationForm::Key => if trimmed(form.identity@).len() == 0 {
                        Some(UiValidationError::MissingIdentity)
                    } else {
                        None
                    },
                    AuthenticationForm::SavedPassword => if !valid_secret_reference(trimmed(form.secret_reference@)) {
                        Some(UiValidationError::InvalidSavedSecretReference)
                    } else {
                        None
                    },
                    AuthenticationForm::NeedsConfiguration => Some(UiValidationError::SshAuthenticationRequired),
                    _ => None,
                }
            },
        }
    }
}

/// The SSH authentication a valid form asks for.
pub open spec fn authentication_fits(authentication: SshAuthentication, form: EndpointForm) -> bool {
    match form.authentication {
        AuthenticationForm::Key => authentication is Key,
        AuthenticationForm::Agent => authentication is Agent,
        AuthenticationForm::InteractivePassword => authentication is InteractivePassword,
        AuthenticationForm::SavedPassword => match authentication {
            SshAuthentication::SavedPassword(reference) => reference@ == trimmed(form.secret_reference@),
            _ => false,
        },
        AuthenticationForm::NeedsConfiguration => false,
    }
}

/// The peer a valid endpoint form builds: the trimmed name and, for SSH,
/// the trimmed server, account and folder, the parsed port, the chosen
/// authentication, and the identity file only for key authentication.
pub open spec fn endpoint_fits(peer: Peer, form: EndpointForm) -> bool {
    &&& peer.name@ == trimmed(form.name@)
    &&& match form.kind {
        EndpointKind::Local => match peer.endpoint {
            PeerEndpoint::Local { root } => root@ == form.local_path@,
            _ => false,
        },
        EndpointKind::Ssh => match peer.endpoint {
            PeerEndpoint::Ssh(ssh) => {
                &&& ssh.server@ == trimmed(form.server@)
                &&& ssh.username@ == trimmed(form.username@)
                &&& parsed_unsigned(form.port@, 65535) == Some(ssh.port as int)
                &&& ssh.remote_path@ == trimmed(form.remote_path@)
                &&& authentication_fits(ssh.authentication, form)
                &&& match ssh.identity {
                    Some(identity) => form.authentication == AuthenticationForm::Key && identity@ == trimmed(form.identity@),
                    None => form.authentication != AuthenticationForm::Key,
                }
            },
            _ => false,
        },
    }
}

fn is_blank(value: &str) -> (blank: bool)
    ensures
        blank == (trimmed(value@).len() == 0),
{
    let text = trim_text(value);
    text.unicode_len() == 0
}

impl EndpointForm {
    /// The peer this endpoint describes, or the first field that is wrong.
    pub fn build(&self, label: &'static str) -> (result: Result<Peer, UiValidationError>)
        ensures
            match endpoint_error(*self, label) {
                Some(error) => result == Err::<Peer, UiValidationError>(error),
                None => result matches Ok(peer) && endpoint_fits(peer, *self),
            },
    {
        if is_blank(self.name.as_str()) {
            return Err(UiValidationError::EmptyPeerName { peer: label });
        }
        let name = trim_text(self.name.as_str());
        match self.kind {
            EndpointKind::Local => {
                if is_blank(self.local_path.as_str()) {
                    return Err(UiValidationError::EmptyLocalPath { peer: label });
                }
                Ok(Peer { name, endpoint: PeerEndpoint::Local { root: self.local_path.clone() } })
            },
            EndpointKind::Ssh => {
                if is_blank(self.server.as_str()) {
                    return Err(UiValidationError::EmptySshServer);
                }
                if is_blank(self.username.as_str()) {
                    return Err(UiValidationError::EmptySshUsername);
                }
                let port = match parse_unsigned(self.port.as_str(), 65535) {
                    Some(port) if port > 0 => port as u16,
                    _ => return Err(UiValidationError::InvalidSshPort),
                };
                if is_blank(self.remote_path.as_str()) {
                    return Err(UiValidationError::EmptySshRemotePath);
                }
                let authentication = match self.authentication {
                    AuthenticationForm::Key => {
                        if is_blank(self.identity.as_str()) {
                            return Err(UiValidationError::MissingIdentity);
                        }
                        SshAuthentication::Key
                    },
                    AuthenticationForm::Agent => SshAuthentication::Agent,
                    AuthenticationForm::InteractivePassword => SshAuthentication::InteractivePassword,
                    AuthenticationForm::SavedPassword => {
                        let reference = trim_text(self.secret_reference.as_str());
                        if !secret_reference_valid(reference.as_str()) {
                            return Err(UiValidationError::InvalidSavedSecretReference);
                        }
                        SshAuthentication::SavedPassword(reference)
                    },
                    AuthenticationForm::NeedsConfiguration => return Err(UiValidationError::SshAuthenticationRequired),
                };
                let identity = match authentication {
                    SshAuthentication::Key => Some(trim_text(self.identity.as_str())),
                    _ => None,
                };
                Ok(Peer {
                    name,
                    endpoint: PeerEndpoint::Ssh(SshPeer {
                        server: trim_text(self.server.as_str()),
                        username: trim_text(self.username.as_str()),
                        port,
                        identity,
                        authentication,
                        remote_path: trim_text(self.remote_path.as_str()),
                    }),
                })
            },
        }
    }
}

/// A fresh endpoint form called `name`: a local folder not yet chosen,
/// port 22 and key authentication for when it becomes an SSH endpoint.
pub open spec fn blank_endpoint(form: EndpointForm, name: Seq<char>) -> bool {
    &&& form.name@ == name
    &&& form.kind == EndpointKind::Local
    &&& form.local_path@.len() == 0
    &&& form.server@.len() == 0
    &&& form.username@.len() == 0
    &&& form.port@ == seq!['2', '2']
    &&& form.identity@.len() == 0
    &&& form.secret_reference@.len() == 0
    &&& form.remote_path@.len() == 0
    &&& form.authentication == AuthenticationForm::Key
}

/// The form that shows a saved peer: every field as the peer holds it, the
/// port written out in decimal, the saved-password reference but never a
/// secret, and the remaining fields as a fresh form has them.
pub open spec fn form_shows_peer(form: EndpointForm, peer: Peer) -> bool {
    &&& form.name@ == peer.name@
    &&& match peer.endpoint {
        PeerEndpoint::Local { root } => {
            &&& form.kind == EndpointKind::Local
            &&& form.local_path@ == root@
            &&& form.server@.len() == 0
            &&& form.username@.len() == 0
            &&& form.port@ == seq!['2', '2']
            &&& form.identity@.len() == 0
            &&& form.secret_reference@.len() == 0
            &&& form.remote_path@.len() == 0
            &&& form.authentication == AuthenticationForm::Key
        },
        PeerEndpoint::Ssh(ssh) => {
            &&& form.kind == EndpointKind::Ssh
            &&& form.local_path@.len() == 0
            &&& form.server@ == ssh.server@
            &&& form.username@ == ssh.username@
            &&& form.port@ == decimal(ssh.port as nat)
            &&& form.identity@ == match ssh.identity {
                Some(identity) => identity@,
                None => Seq::<char>::empty(),
            }
            &&& form.remote_path@ == ssh.remote_path@
            &&& match ssh.authentication {
                SshAuthentication::Key => form.authentication == AuthenticationForm::Key && form.secret_reference@.len() == 0,
                SshAuthentication::Agent => form.authentication == AuthenticationForm::Agent && form.secret_reference@.len() == 0,
                SshAuthentication::InteractivePassword => form.authentication == AuthenticationForm::InteractivePassword
                    && form.secret_reference@.len() == 0,
                SshAuthentication::SavedPassword(reference) => form.authentication == AuthenticationForm::SavedPassword
                    && form.secret_reference@ == reference@,
            }
        },
    }
}

/// Two SSH authentications of the same kind, with the same saved reference.
pub open spec fn same_authentication(a: SshAuthentication, b: SshAuthentication) -> bool {
    match (a, b) {
        (SshAuthentication::Key, SshAuthentication::Key) => true,
        (SshAuthentication::Agent, SshAuthentication::Agent) => true,
        (SshAuthentication::InteractivePassword, SshAuthentication::InteractivePassword) => true,
        (SshAuthentication::SavedPassword(x), SshAuthentication::SavedPassword(y)) => x@ == y@,
        _ => false,
    }
}

/// Two peers that hold the same text in every field.
pub open spec fn same_peer(a: Peer, b: Peer) -> bool {
    &&& a.name@ == b.name@
    &&& match (a.endpoint, b.endpoint) {
        (PeerEndpoint::Local { root: x }, PeerEndpoint::Local { root: y }) => x@ == y@,
        (PeerEndpoint::Ssh(x), PeerEndpoint::Ssh(y)) => {
            &&& x.server@ == y.server@
            &&& x.username@ == y.username@
            &&& x.port == y.port
            &&& x.remote_path@ == y.remote_path@
            &&& same_authentication(x.authentication, y.authentication)
            &&& match (x.identity, y.identity) {
                (Some(i), Some(j)) => i@ == j@,
                (None, None) => true,
                _ => false,
            }
        },
        _ => false,
    }
}

impl EndpointForm {
    fn blank(name: &str) -> (form: EndpointForm)
        ensures
            blank_endpoint(form, name@),
    {
        let port = decimal_text(22);
        assert(decimal(22) =~= seq!['2', '2']) by {
            reveal_with_fuel(decimal, 2);
        }
        EndpointForm {
            name: name.to_owned(),
            kind: EndpointKind::Local,
            local_path: String::new(),
            server: String::new(),
            username: String::new(),
            port,
            identity: String::new(),
            secret_reference: String::new(),
            remote_path: String::new(),
            authentication: AuthenticationForm::Key,
        }
    }

    /// The fresh form of a new profile's first peer.
    pub fn source_defaults() -> (form: EndpointForm)
        ensures
            blank_endpoint(form, "Source"@),
    {
        EndpointForm::blank("Source")
    }

    /// The fresh form of a new profile's second peer.
    pub fn destination_defaults() -> (form: EndpointForm)
        ensures
            blank_endpoint(form, "Destination"@),
    {
        EndpointForm::blank("Destination")
    }

    /// The form that shows a saved peer for editing.
    pub fn from_peer(peer: &Peer) -> (form: EndpointForm)
        ensures
            form_shows_peer(form, *peer),
    {
        match &peer.endpoint {
            PeerEndpoint::Local { root } => {
                let mut form = EndpointForm::blank(peer.name.as_str());
                form.local_path = root.clone();
                form
            },
            PeerEndpoint::Ssh(ssh) => {
                let (authentication, secret_reference) = match &ssh.authentication {
                    SshAuthentication::Key => (AuthenticationForm::Key, String::new()),
                    SshAuthentication::Agent => (AuthenticationForm::Agent, String::new()),
                    SshAuthentication::InteractivePassword => (AuthenticationForm::InteractivePassword, String::new()),
                    SshAuthentication::SavedPassword(reference) => (AuthenticationForm::SavedPassword, reference.clone()),
                };
                let identity = match &ssh.identity {
                    Some(identity) => identity.clone(),
                    None => String::new(),
                };
                EndpointForm {
                    name: peer.name.clone(),
                    kind: EndpointKind::Ssh,
                    local_path: String::new(),
                    server: ssh.server.clone(),
                    username: ssh.username.clone(),
                    port: decimal_text(ssh.port as u64),
                    identity,
                    secret_reference,
                    remote_path: ssh.remote_path.clone(),
                    authentication,
                }
            },
        }
    }

    /// The form with a saved password dropped: a copy of a profile never
    /// carries a keyring reference, so its authentication must be chosen
    /// again. Other forms are unchanged.
    pub fn without_saved_credentials(self) -> (form: EndpointForm)
        ensures
            self.authentication != AuthenticationForm::SavedPassword ==> form == self,
            self.authentication == AuthenticationForm::SavedPassword ==> {
                &&& form.authentication == AuthenticationForm::NeedsConfiguration
                &&& form.secret_reference@.len() == 0
                &&& form.identity@.len() == 0
                &&& form.name == self.name
                &&& form.kind == self.kind
                &&& form.local_path == self.local_path
                &&& form.server == self.server
                &&& form.username == self.username
                &&& form.port == self.port
                &&& form.remote_path == self.remote_path
            },
    {
        let mut form = self;
        if form.authentication == AuthenticationForm::SavedPassword {
            form.authentication = AuthenticationForm::NeedsConfiguration;
            form.secret_reference = String::new();
            form.identity = String::new();
        }
        form
    }
}

/// Showing a peer that an endpoint form built in a new form, and building
/// that form again, gives the same peer back: editing a saved endpoint and
/// saving it unchanged changes nothing.
pub proof fn endpoint_form_round_trip(
    form: EndpointForm,
    label: &'static str,
    peer: Peer,
    shown: EndpointForm,
    shown_label: &'static str,
)
    requires
        endpoint_error(form, label) is None,
        endpoint_fits(peer, form),
        form_shows_peer(shown, peer),
    ensures
        endpoint_error(shown, shown_label) is None,
        forall|rebuilt: Peer| #[trigger] endpoint_fits(rebuilt, shown) ==> same_peer(rebuilt, peer),
{
    lemma_trimmed_idempotent(form.name@);
    match peer.endpoint {
        PeerEndpoint::Local { root } => {},
        PeerEndpoint::Ssh(ssh) => {
            lemma_trimmed_idempotent(form.server@);
            lemma_trimmed_idempotent(form.username@);
            lemma_trimmed_idempotent(form.remote_path@);
            lemma_trimmed_idempotent(form.identity@);
            lemma_trimmed_idempotent(form.secret_reference@);
            lemma_decimal_parses(ssh.port as nat, 65535);
            assert(parsed_unsigned(shown.port@, 65535) == Some(ssh.port as int));
        },
    }
}

/// The whole profile form.
#[derive(Debug, Clone, PartialEq, Eq)]
pub struct ProfileForm {
    pub name: String,
    pub peer_a: EndpointForm,
    pub peer_b: EndpointForm,
    pub mode: SyncMode,
    pub source: OneWaySource,
    pub safe_delete: bool,
    pub deletion_method: Option<DeletionMethod>,
    pub destination_cleanup: bool,
    /// One exclusion pattern per line.
    pub exclusions: String,
    pub timestamps: bool,
    pub ownership: bool,
    pub access_control_lists: bool,
    pub extended_attributes: bool,
    pub partial_transfer_policy: PartialTransferPolicy,
    pub retry_attempts: String,
    pub retry_delay_millis: String,
    pub schedule_enabled: bool,
    pub schedule_interval_minutes: String,
    pub schedule_timezone: String,
}

/// The longest first retry delay a profile may ask for.
pub const MAX_RETRY_DELAY_MILLIS: u64 = 3_600_000;

/// Retry attempts as entered: a whole number from 1 to the retry limit.
pub open spec fn retry_attempts_value(text: Seq<char>) -> Option<int> {
    match parsed_unsigned(trimmed(text), 255) {
        Some(attempts) => if 1 <= attempts <= RETRY_MAX_ATTEMPTS { Some(attempts) } else { None },
        None => None,
    }
}

/// The first retry delay as entered, in milliseconds, at most an hour.
pub open spec fn retry_delay_value(text: Seq<char>) -> Option<int> {
    match parsed_unsigned(trimmed(text), u64::MAX as int) {
        Some(delay) => if delay <= MAX_RETRY_DELAY_MILLIS { Some(delay) } else { None },
        None => None,
    }
}

/// The first field of the profile form that is wrong.
pub open spec fn profile_error(form: ProfileForm) -> Option<UiValidationError> {
    if trimmed(form.name@).len() == 0 {
        Some(UiValidationError::EmptyProfileName)
    } else if endpoint_error(form.peer_a, "Source") is Some {
        endpoint_error(form.peer_a, "Source")
    } else if endpoint_error(form.peer_b, "Destination") is Some {
        endpoint_error(form.peer_b, "Destination")
    } else if retry_attempts_value(form.retry_attempts@) is None {
        Some(UiValidationError::InvalidRetryAttempts)
    } else if retry_delay_value(form.retry_delay_millis@) is None {
        Some(UiValidationError::InvalidRetryDelay)
    } else {
        None
    }
}

/// Splits text at line feeds: the lines finished so far and the one in progress.
pub open spec fn split_state(text: Seq<char>) -> (Seq<Seq<char>>, Seq<char>)
    decreases text.len(),
{
    if text.len() == 0 {
        (Seq::empty(), Seq::empty())
    } else {
        let state = split_state(text.drop_last());
        if text.last() == '\n' {
            (close_line(state.0, state.1), Seq::empty())
        } else {
            (state.0, state.1.push(text.last()))
        }
    }
}

/// Keeps a finished line as a pattern when something is left after trimming.
pub open spec fn close_line(done: Seq<Seq<char>>, line: Seq<char>) -> Seq<Seq<char>> {
    if trimmed(line).len() > 0 { done.push(trimmed(line)) } else { done }
}

/// The exclusion patterns of the form: every line, trimmed, that is not blank.
pub open spec fn exclusion_patterns(text: Seq<char>) -> Seq<Seq<char>> {
    close_line(split_state(text).0, split_state(text).1)
}

/// A pattern as the form yields it: not blank, trimmed, on one line.
pub open spec fn clean_pattern(pattern: Seq<char>) -> bool {
    &&& pattern.len() > 0
    &&& trimmed(pattern) == pattern
    &&& !pattern.contains('\n')
}

pub open spec fn clean_patterns(patterns: Seq<Seq<char>>) -> bool {
    forall|i: int| 0 <= i < patterns.len() ==> clean_pattern(#[trigger] patterns[i])
}

proof fn lemma_close_line_clean(done: Seq<Seq<char>>, line: Seq<char>)
    requires
        clean_patterns(done),
        !line.contains('\n'),
    ensures
        clean_patterns(close_line(done, line)),
{
    if trimmed(line).len() > 0 {
        lemma_trimmed_idempotent(line);
        lemma_trimmed_lacks(line, '\n');
        let after = done.push(trimmed(line));
        assert forall|i: int| 0 <= i < after.len() implies clean_pattern(#[trigger] after[i]) by {
            if i < done.len() {
                assert(after[i] == done[i]);
            }
        }
    }
}

proof fn lemma_split_clean(text: Seq<char>)
    ensures
        clean_patterns(split_state(text).0),
        !split_state(text).1.contains('\n'),
    decreases text.len(),
{
    if text.len() > 0 {
        let state = split_state(text.drop_last());
        lemma_split_clean(text.drop_last());
        if text.last() == '\n' {
            lemma_close_line_clean(state.0, state.1);
        } else {
            let line = state.1.push(text.last());
            assert forall|k: int| 0 <= k < line.len() implies line[k] != '\n' by {
                if k < state.1.len() {
                    assert(line[k] == state.1[k]);
                }
            }
        }
    }
}

/// Every exclusion pattern the form yields is clean.
pub proof fn lemma_exclusions_clean(text: Seq<char>)
    ensures
        clean_patterns(exclusion_patterns(text)),
{
    lemma_split_clean(text);
    lemma_close_line_clean(split_state(text).0, split_state(text).1);
}

proof fn lemma_split_within_line(before: Seq<char>, line: Seq<char>)
    requires
        !line.contains('\n'),
    ensures
        split_state(before + line) == (split_state(before).0, split_state(before).1 + line),
    decreases line.len(),
{
    if line.len() == 0 {
        assert(before + line =~= before);
        assert(split_state(before).1 + line =~= split_state(before).1);
    } else {
        let shorter = line.drop_last();
        assert(!shorter.contains('\n')) by {
            assert forall|k: int| 0 <= k < shorter.len() implies shorter[k] != '\n' by {
                assert(shorter[k] == line[k]);
            }
        }
        lemma_split_within_line(before, shorter);
        assert((before + line).drop_last() =~= before + shorter);
        assert((before + line).last() == line.last());
        assert(line.last() != '\n') by {
            assert(line[line.len() - 1] == line.last());
        }
        assert((split_state(before).1 + shorter).push(line.last()) =~= split_state(before).1 + line);
    }
}

proof fn lemma_split_joined(patterns: Seq<Seq<char>>)
    requires
        patterns.len() > 0,
        clean_patterns(patterns),
    ensures
        split_state(joined(patterns, seq!['\n'])) == (patterns.drop_last(), patterns.last()),
    decreases patterns.len(),
{
    let last = patterns.last();
    assert(clean_pattern(patterns[patterns.len() - 1]));
    if patterns.len() == 1 {
        lemma_split_within_line(Seq::empty(), last);
        assert(Seq::<char>::empty() + last =~= last);
        assert(split_state(Seq::<char>::empty()) == (Seq::<Seq<char>>::empty(), Seq::<char>::empty()));
        assert(Seq::<char>::empty() + last =~= last);
        assert(patterns.drop_last() =~= Seq::<Seq<char>>::empty());
    } else {
        let earlier = patterns.drop_last();
        assert forall|i: int| 0 <= i < earlier.len() implies clean_pattern(#[trigger] earlier[i]) by {
            assert(earlier[i] == patterns[i]);
        }
        lemma_split_joined(earlier);
        let head = joined(earlier, seq!['\n']);
        let with_break = head + seq!['\n'];
        assert(with_break.drop_last() =~= head);
        assert(with_break.last() == '\n');
        let previous = earlier.last();
        assert(clean_pattern(earlier[earlier.len() - 1]));
        assert(split_state(with_break) == (earlier.drop_last().push(previous), Seq::<char>::empty()));
        assert(earlier.drop_last().push(previous) =~= earlier);
        lemma_split_within_line(with_break, last);
        assert(Seq::<char>::empty() + last =~= last);
    }
}

/// Writing clean patterns one per line and reading the lines back gives
/// the same patterns.
pub proof fn lemma_patterns_round_trip(patterns: Seq<Seq<char>>)
    requires
        clean_patterns(patterns),
    ensures
        exclusion_patterns(joined(patterns, seq!['\n'])) == patterns,
{
    if patterns.len() == 0 {
        let e = Seq::<char>::empty();
        assert(start_from(e, 0) == 0);
        assert(end_from(e, 0) == 0);
        assert(trimmed(e).len() == 0);
    } else {
        lemma_split_joined(patterns);
        assert(clean_pattern(patterns[patterns.len() - 1]));
        assert(patterns.drop_last().push(patterns.last()) =~= patterns);
    }
}

fn close_pattern(patterns: &mut Vec<String>, line: &String)
    ensures
        string_views(final(patterns)@) == close_line(string_views(old(patterns)@), line@),
{
    let pattern = trim_text(line.as_str());
    if pattern.unicode_len() > 0 {
        let ghost before = string_views(patterns@);
        patterns.push(pattern);
        assert(string_views(patterns@) =~= before.push(trimmed(line@)));
    }
}

/// The exclusion patterns typed into the form, one per nonblank line.
pub fn parse_exclusions(text: &str) -> (patterns: Vec<String>)
    ensures
        string_views(patterns@) == exclusion_patterns(text@),
{
    let chars = chars_of(text);
    let mut patterns: Vec<String> = Vec::new();
    let mut line = String::new();
    let mut index: usize = 0;
    while index < chars.len()
        invariant
            chars@ == text@,
            index <= chars@.len(),
            string_views(patterns@) == split_state(text@.subrange(0, index as int)).0,
            line@ == split_state(text@.subrange(0, index as int)).1,
        decreases chars@.len() - index,
    {
        let ghost prefix = text@.subrange(0, index + 1);
        assert(prefix.drop_last() =~= text@.subrange(0, index as int));
        if chars[index] == '\n' {
            close_pattern(&mut patterns, &line);
            line = String::new();
        } else {
            push_char(&mut line, chars[index]);
        }
        index += 1;
    }
    assert(text@.subrange(0, index as int) =~= text@);
    close_pattern(&mut patterns, &line);
    patterns
}

/// The options a valid form builds. Empty directories, symbolic links and
/// executable bits are always carried over; Safe Delete uses the chosen
/// deletion method, the Trash unless another was chosen.
pub open spec fn form_options(form: ProfileForm, attempts: u8, delay: u64) -> SyncOptions {
    SyncOptions {
        metadata: MetadataRequirements {
            empty_directories: true,
            symlinks: true,
            executable_bits: true,
            timestamps: form.timestamps,
            ownership: form.ownership,
            access_control_lists: form.access_control_lists,
            extended_attributes: form.extended_attributes,
        },
        safe_delete: form.safe_delete,
        destination_cleanup: form.destination_cleanup,
        deletion_method: if form.safe_delete {
            Some(match form.deletion_method { Some(method) => method, None => DeletionMethod::Trash })
        } else {
            None
        },
        partial_transfer_policy: form.partial_transfer_policy,
        retry_policy: RetryPolicy { max_attempts: attempts, initial_delay_millis: delay },
    }
}

/// The profile a valid form builds.
pub open spec fn profile_fits(profile: SyncProfile, form: ProfileForm) -> bool {
    &&& profile.name@ == trimmed(form.name@)
    &&& endpoint_fits(profile.peer_a, form.peer_a)
    &&& endpoint_fits(profile.peer_b, form.peer_b)
    &&& profile.mode == form.mode
    &&& profile.source == form.source
    &&& retry_attempts_value(form.retry_attempts@) == Some(profile.options.retry_policy.max_attempts as int)
    &&& retry_delay_value(form.retry_delay_millis@) == Some(profile.options.retry_policy.initial_delay_millis as int)
    &&& profile.options == form_options(form, profile.options.retry_policy.max_attempts, profile.options.retry_policy.initial_delay_millis)
    &&& string_views(profile.exclusions@) == exclusion_patterns(form.exclusions@)
}

impl ProfileForm {
    /// The form of a new profile: blank Source and Destination endpoints,
    /// One-Way Sync from Peer A, Safe Delete, deletion and destination
    /// cleanup off, every optional metadata check off, partial transfers
    /// cleaned up, scheduling off at an hourly interval in UTC, and the
    /// attempts and first delay of `retry`, the default retry policy.
    pub fn new_profile(retry: RetryPolicy) -> (form: ProfileForm)
        ensures
            form.name@ == Seq::<char>::empty(),
            blank_endpoint(form.peer_a, "Source"@),
            blank_endpoint(form.peer_b, "Destination"@),
            form.mode == SyncMode::OneWay,
            form.source == OneWaySource::PeerA,
            !form.safe_delete,
            form.deletion_method is None,
            !form.destination_cleanup,
            form.exclusions@ == Seq::<char>::empty(),
            !form.timestamps && !form.ownership && !form.access_control_lists && !form.extended_attributes,
            form.partial_transfer_policy == PartialTransferPolicy::Cleanup,
            form.retry_attempts@ == decimal(retry.max_attempts as nat),
            form.retry_delay_millis@ == decimal(retry.initial_delay_millis as nat),
            !form.schedule_enabled,
            form.schedule_interval_minutes@ == "60"@,
            form.schedule_timezone@ == "UTC"@,
    {
        ProfileForm {
            name: String::new(),
            peer_a: EndpointForm::source_defaults(),
            peer_b: EndpointForm::destination_defaults(),
            mode: SyncMode::OneWay,
            source: OneWaySource::PeerA,
            safe_delete: false,
            deletion_method: None,
            destination_cleanup: false,
            exclusions: String::new(),
            timestamps: false,
            ownership: false,
            access_control_lists: false,
            extended_attributes: false,
            partial_transfer_policy: PartialTransferPolicy::Cleanup,
            retry_attempts: decimal_text(retry.max_attempts as u64),
            retry_delay_millis: decimal_text(retry.initial_delay_millis),
            schedule_enabled: false,
            schedule_interval_minutes: String::from_str("60"),
            schedule_timezone: String::from_str("UTC"),
        }
    }

    /// The Sync Profile this form describes, or the first field that is wrong.
    pub fn build(&self) -> (result: Result<SyncProfile, UiValidationError>)
        ensures
            match profile_error(*self) {
                Some(error) => result == Err::<SyncProfile, UiValidationError>(error),
                None => result matches Ok(profile) && profile_fits(profile, *self),
            },
    {
        if is_blank(self.name.as_str()) {
            return Err(UiValidationError::EmptyProfileName);
        }
        let peer_a = self.peer_a.build("Source")?;
        let peer_b = self.peer_b.build("Destination")?;
        let attempts_text = trim_text(self.retry_attempts.as_str());
        let attempts = match parse_unsigned(attempts_text.as_str(), 255) {
            Some(attempts) if 1 <= attempts && attempts <= RETRY_MAX_ATTEMPTS as u64 => attempts as u8,
            _ => return Err(UiValidationError::InvalidRetryAttempts),
        };
        let delay_text = trim_text(self.retry_delay_millis.as_str());
        let delay = match parse_unsigned(delay_text.as_str(), u64::MAX) {
            Some(delay) if delay <= MAX_RETRY_DELAY_MILLIS => delay,
            _ => return Err(UiValidationError::InvalidRetryDelay),
        };
        let deletion_method = if self.safe_delete {
            Some(match self.deletion_method {
                Some(method) => method,
                None => DeletionMethod::Trash,
            })
        } else {
            None
        };
        let options = SyncOptions {
            metadata: MetadataRequirements {
                empty_directories: true,
                symlinks: true,
                executable_bits: true,
                timestamps: self.timestamps,
                ownership: self.ownership,
                access_control_lists: self.access_control_lists,
                extended_attributes: self.extended_attributes,
            },
            safe_delete: self.safe_delete,
            destination_cleanup: self.destination_cleanup,
            deletion_method,
            partial_transfer_policy: self.partial_transfer_policy,
            retry_policy: RetryPolicy { max_attempts: attempts, initial_delay_millis: delay },
        };
        Ok(SyncProfile {
            name: trim_text(self.name.as_str()),
            peer_a,
            peer_b,
            mode: self.mode,
            source: self.source,
            options,
            exclusions: parse_exclusions(self.exclusions.as_str()),
        })
    }
}


/// A periodic schedule for unattended runs of a profile.
#[derive(Debug, Clone, PartialEq, Eq)]
pub struct ScheduleDefinition {
    pub interval_minutes: u32,
    pub timezone: String,
    pub enabled: bool,
}

/// The longest schedule interval: seven days.
pub const MAX_SCHEDULE_MINUTES: u32 = 10_080;

/// A timezone name that a schedule may hold: nonempty, at most 128
/// characters, without a NUL character.
pub open spec fn valid_timezone(zone: Seq<char>) -> bool {
    zone.len() > 0 && zone.len() <= 128 && !zone.contains('\0')
}

pub open spec fn schedule_error(form: ProfileForm) -> Option<UiValidationError> {
    match parsed_unsigned(trimmed(form.schedule_interval_minutes@), u32::MAX as int) {
        Some(minutes) if 1 <= minutes <= MAX_SCHEDULE_MINUTES => if valid_timezone(trimmed(form.schedule_timezone@)) {
            None
        } else {
            Some(UiValidationError::InvalidScheduleTimezone)
        },
        _ => Some(UiValidationError::InvalidScheduleInterval),
    }
}

/// The schedule a valid form builds: the interval as entered, the trimmed
/// timezone, and whether it is switched on.
pub open spec fn schedule_fits(schedule: ScheduleDefinition, form: ProfileForm) -> bool {
    &&& parsed_unsigned(trimmed(form.schedule_interval_minutes@), u32::MAX as int) == Some(schedule.interval_minutes as int)
    &&& schedule.timezone@ == trimmed(form.schedule_timezone@)
    &&& schedule.enabled == form.schedule_enabled
}

fn timezone_valid(zone: &str) -> (valid: bool)
    ensures
        valid == valid_timezone(zone@),
{
    let chars = chars_of(zone);
    if chars.len() == 0 || chars.len() > 128 {
        return false;
    }
    let mut index: usize = 0;
    while index < chars.len()
        invariant
            chars@ == zone@,
            index <= chars@.len(),
            forall|k: int| 0 <= k < index ==> chars@[k] != '\0',
        decreases chars@.len() - index,
    {
        if chars[index] == '\0' {
            assert(zone@[index as int] == '\0');
            return false;
        }
        index += 1;
    }
    assert(!zone@.contains('\0')) by {
        if zone@.contains('\0') {
            let k = choose|k: int| 0 <= k < zone@.len() && zone@[k] == '\0';
            assert(chars@[k] != '\0');
        }
    }
    true
}

impl ProfileForm {
    /// The schedule this form describes, or the field that is wrong.
    pub fn build_schedule(&self) -> (result: Result<ScheduleDefinition, UiValidationError>)
        ensures
            match schedule_error(*self) {
                Some(error) => result == Err::<ScheduleDefinition, UiValidationError>(error),
                None => result matches Ok(schedule) && schedule_fits(schedule, *self),
            },
    {
        let interval_text = trim_text(self.schedule_interval_minutes.as_str());
        let interval = match parse_unsigned(interval_text.as_str(), u32::MAX as u64) {
            Some(minutes) if 1 <= minutes && minutes <= MAX_SCHEDULE_MINUTES as u64 => minutes as u32,
            _ => return Err(UiValidationError::InvalidScheduleInterval),
        };
        let timezone = trim_text(self.schedule_timezone.as_str());
        if !timezone_valid(timezone.as_str()) {
            return Err(UiValidationError::InvalidScheduleTimezone);
        }
        Ok(ScheduleDefinition { interval_minutes: interval, timezone, enabled: self.schedule_enabled })
    }
}

/// The form that shows a saved profile and its schedule for editing: every
/// field as the profile holds it, numbers written out in decimal, one
/// exclusion pattern per line; without a schedule, an hourly UTC schedule
/// that is switched off.
pub open spec fn form_shows_profile(form: ProfileForm, profile: SyncProfile, schedule: Option<ScheduleDefinition>) -> bool {
    &&& form.name@ == profile.name@
    &&& form_shows_peer(form.peer_a, profile.peer_a)
    &&& form_shows_peer(form.peer_b, profile.peer_b)
    &&& form.deletion_method == profile.options.deletion_method
    &&& form_shows_settings(form, profile, schedule)
}

/// The fields of a shown profile besides its name, peers and deletion method.
pub open spec fn form_shows_settings(form: ProfileForm, profile: SyncProfile, schedule: Option<ScheduleDefinition>) -> bool {
    &&& form.mode == profile.mode
    &&& form.source == profile.source
    &&& form.safe_delete == profile.options.safe_delete
    &&& form.destination_cleanup == profile.options.destination_cleanup
    &&& form.exclusions@ == joined(string_views(profile.exclusions@), seq!['\n'])
    &&& form.timestamps == profile.options.metadata.timestamps
    &&& form.ownership == profile.options.metadata.ownership
    &&& form.access_control_lists == profile.options.metadata.access_control_lists
    &&& form.extended_attributes == profile.options.metadata.extended_attributes
    &&& form.partial_transfer_policy == profile.options.partial_transfer_policy
    &&& form.retry_attempts@ == decimal(profile.options.retry_policy.max_attempts as nat)
    &&& form.retry_delay_millis@ == decimal(profile.options.retry_policy.initial_delay_millis as nat)
    &&& match schedule {
        Some(schedule) => {
            &&& form.schedule_enabled == schedule.enabled
            &&& form.schedule_interval_minutes@ == decimal(schedule.interval_minutes as nat)
            &&& form.schedule_timezone@ == schedule.timezone@
        },
        None => {
            &&& !form.schedule_enabled
            &&& form.schedule_interval_minutes@ == seq!['6', '0']
            &&& form.schedule_timezone@ == seq!['U', 'T', 'C']
        },
    }
}

impl ProfileForm {
    /// The form that shows a saved profile and its schedule for editing.
    pub fn from_profile(profile: &SyncProfile, schedule: &Option<ScheduleDefinition>) -> (form: ProfileForm)
        ensures
            form_shows_profile(form, *profile, *schedule),
    {
        let exclusions = join_lines(&profile.exclusions, "\n");
        proof {
            reveal_strlit("\n");
            assert("\n"@ =~= seq!['\n']);
        }
        let (schedule_enabled, schedule_interval_minutes, schedule_timezone) = match schedule {
            Some(schedule) => (schedule.enabled, decimal_text(schedule.interval_minutes as u64), schedule.timezone.clone()),
            None => {
                let interval = decimal_text(60);
                assert(decimal(60) =~= seq!['6', '0']) by {
                    reveal_with_fuel(decimal, 2);
                }
                let zone = "UTC".to_owned();
                proof {
                    reveal_strlit("UTC");
                    assert("UTC"@ =~= seq!['U', 'T', 'C']);
                }
                (false, interval, zone)
            },
        };
        let options = profile.options;
        ProfileForm {
            name: profile.name.clone(),
            peer_a: EndpointForm::from_peer(&profile.peer_a),
            peer_b: EndpointForm::from_peer(&profile.peer_b),
            mode: profile.mode,
            source: profile.source,
            safe_delete: options.safe_delete,
            deletion_method: options.deletion_method,
            destination_cleanup: options.destination_cleanup,
            exclusions,
            timestamps: options.metadata.timestamps,
            ownership: options.metadata.ownership,
            access_control_lists: options.metadata.access_control_lists,
            extended_attributes: options.metadata.extended_attributes,
            partial_transfer_policy: options.partial_transfer_policy,
            retry_attempts: decimal_text(options.retry_policy.max_attempts as u64),
            retry_delay_millis: decimal_text(options.retry_policy.initial_delay_millis),
            schedule_enabled,
            schedule_interval_minutes,
            schedule_timezone,
        }
    }
}

/// Two profiles that hold the same text and values in every field.
pub open spec fn same_profile_text(a: SyncProfile, b: SyncProfile) -> bool {
    &&& a.name@ == b.name@
    &&& same_peer(a.peer_a, b.peer_a)
    &&& same_peer(a.peer_b, b.peer_b)
    &&& a.mode == b.mode
    &&& a.source == b.source
    &&& a.options == b.options
    &&& string_views(a.exclusions@) == string_views(b.exclusions@)
}

/// Showing a profile that the form built in a new form, and building that
/// form again, gives the same profile back: opening a saved profile and
/// saving it unchanged changes nothing.
pub proof fn profile_form_round_trip(
    form: ProfileForm,
    profile: SyncProfile,
    shown: ProfileForm,
    schedule: Option<ScheduleDefinition>,
)
    requires
        profile_error(form) is None,
        profile_fits(profile, form),
        form_shows_profile(shown, profile, schedule),
    ensures
        profile_error(shown) is None,
        forall|rebuilt: SyncProfile| #[trigger] profile_fits(rebuilt, shown) ==> same_profile_text(rebuilt, profile),
{
    lemma_trimmed_idempotent(form.name@);
    endpoint_form_round_trip(form.peer_a, "Source", profile.peer_a, shown.peer_a, "Source");
    endpoint_form_round_trip(form.peer_b, "Destination", profile.peer_b, shown.peer_b, "Destination");
    let attempts = profile.options.retry_policy.max_attempts;
    let delay = profile.options.retry_policy.initial_delay_millis;
    lemma_decimal_parses(attempts as nat, 255);
    lemma_decimal_parses(delay as nat, u64::MAX as int);
    lemma_exclusions_clean(form.exclusions@);
    lemma_patterns_round_trip(string_views(profile.exclusions@));
    assert(form_options(shown, attempts, delay) == profile.options);
    assert forall|rebuilt: SyncProfile| #[trigger] profile_fits(rebuilt, shown) implies same_profile_text(rebuilt, profile) by {
        assert(rebuilt.options.retry_policy.max_attempts == attempts);
        assert(rebuilt.options.retry_policy.initial_delay_millis == delay);
    }
}

/// Showing a schedule that the form built, and building it again, gives the
/// same schedule back.
pub proof fn schedule_form_round_trip(form: ProfileForm, schedule: ScheduleDefinition, profile: SyncProfile, shown: ProfileForm)
    requires
        schedule_error(form) is None,
        schedule_fits(schedule, form),
        form_shows_profile(shown, profile, Some(schedule)),
    ensures
        schedule_error(shown) is None,
        forall|rebuilt: ScheduleDefinition| #[trigger] schedule_fits(rebuilt, shown) ==> {
            &&& rebuilt.interval_minutes == schedule.interval_minutes
            &&& rebuilt.timezone@ == schedule.timezone@
            &&& rebuilt.enabled == schedule.enabled
        },
{
    lemma_trimmed_idempotent(form.schedule_timezone@);
    lemma_decimal_parses(schedule.interval_minutes as nat, u32::MAX as int);
}

/// Some saved profile already has this name.
pub open spec fn name_taken(names: Seq<String>, name: Seq<char>) -> bool {
    exists|i: int| 0 <= i < names.len() && #[trigger] names[i]@ == name
}

/// The first name tried for a copy: the source's name and " copy".
pub open spec fn clone_base(source: Seq<char>) -> Seq<char> {
    source + seq![' ', 'c', 'o', 'p', 'y']
}

/// The later names tried for a copy: the first name and a number.
pub open spec fn clone_candidate(base: Seq<char>, number: nat) -> Seq<char> {
    base + seq![' '] + decimal(number)
}

/// The name a copy gets: "<source> copy" while it is free, else the free
/// "<source> copy <n>" with the least `n` from 2; only if every number up
/// to `u32::MAX` is taken does it fall back to "<source> copy".
pub open spec fn clone_name_fits(name: Seq<char>, names: Seq<String>, source: Seq<char>) -> bool {
    let base = clone_base(source);
    if !name_taken(names, base) {
        name == base
    } else {
        ||| exists|n: nat| #![trigger clone_candidate(base, n)]
            {
                &&& 2 <= n <= u32::MAX
                &&& name == clone_candidate(base, n)
                &&& !name_taken(names, name)
                &&& forall|m: nat| 2 <= m < n ==> name_taken(names, #[trigger] clone_candidate(base, m))
            }
        ||| {
            &&& name == base
            &&& forall|m: nat| 2 <= m <= u32::MAX ==> name_taken(names, #[trigger] clone_candidate(base, m))
        }
    }
}

fn is_taken(names: &Vec<String>, name: &String) -> (taken: bool)
    ensures
        taken == name_taken(names@, name@),
{
    let mut index: usize = 0;
    while index < names.len()
        invariant
            index <= names@.len(),
            forall|i: int| 0 <= i < index ==> names@[i]@ != name@,
        decreases names@.len() - index,
    {
        if same_text(names[index].as_str(), name.as_str()) {
            assert(names@[index as int]@ == name@);
            return true;
        }
        index += 1;
    }
    false
}

/// A free name for a copy of the profile called `source_name`.
pub fn next_clone_name(existing: &Vec<String>, source_name: &str) -> (name: String)
    ensures
        clone_name_fits(name@, existing@, source_name@),
{
    let mut base = source_name.to_owned();
    base.append(" copy");
    proof {
        reveal_strlit(" copy");
        assert(" copy"@ =~= seq![' ', 'c', 'o', 'p', 'y']);
    }
    if !is_taken(existing, &base) {
        return base;
    }
    let mut number: u32 = 2;
    loop
        invariant
            2 <= number,
            base@ == clone_base(source_name@),
            name_taken(existing@, base@),
            forall|m: nat| 2 <= m < number ==> name_taken(existing@, #[trigger] clone_candidate(base@, m)),
        decreases u32::MAX - number,
    {
        let mut candidate = base.clone();
        candidate.append(" ");
        let digits = decimal_text(number as u64);
        candidate.append(digits.as_str());
        proof {
            reveal_strlit(" ");
            assert(" "@ =~= seq![' ']);
            assert(candidate@ =~= clone_candidate(base@, number as nat));
        }
        if !is_taken(existing, &candidate) {
            return candidate;
        }
        if number == u32::MAX {
            return base;
        }
        number += 1;
    }
}

/// How a copy shows a peer: as the peer is shown for editing, except that a
/// saved password is dropped and its authentication must be chosen again.
pub open spec fn copy_shows_peer(form: EndpointForm, peer: Peer) -> bool {
    match peer.endpoint {
        PeerEndpoint::Ssh(ssh) => match ssh.authentication {
            SshAuthentication::SavedPassword(_) => {
                &&& form.name@ == peer.name@
                &&& form.kind == EndpointKind::Ssh
                &&& form.local_path@.len() == 0
                &&& form.server@ == ssh.server@
                &&& form.username@ == ssh.username@
                &&& form.port@ == decimal(ssh.port as nat)
                &&& form.identity@.len() == 0
                &&& form.remote_path@ == ssh.remote_path@
                &&& form.secret_reference@.len() == 0
                &&& form.authentication == AuthenticationForm::NeedsConfiguration
            },
            _ => form_shows_peer(form, peer),
        },
        _ => form_shows_peer(form, peer),
    }
}

/// The editable copy of a saved profile: a free name, the same settings,
/// no saved password, the Trash as deletion method when Safe Delete is on;
/// the source's endpoints are kept so that a save can insist on a changed
/// endpoint, and its unattended authorizations only for an explicit choice,
/// which starts confirmed only when there is nothing to copy.
pub fn clone_form(
    profile: &SyncProfile,
    schedule: &Option<ScheduleDefinition>,
    authorizations: AuthorizationSnapshot,
    existing: &Vec<String>,
) -> (result: (ProfileForm, CloneState))
    ensures
        clone_name_fits(result.0.name@, existing@, profile.name@),
        copy_shows_peer(result.0.peer_a, profile.peer_a),
        copy_shows_peer(result.0.peer_b, profile.peer_b),
        result.0.deletion_method == (if profile.options.safe_delete { Some(DeletionMethod::Trash) } else { None::<DeletionMethod> }),
        form_shows_settings(result.0, *profile, *schedule),
        result.1.source_endpoints == Some((profile.peer_a, profile.peer_b)),
        result.1.source_authorizations == authorizations,
        result.1.choice == CloneAuthorizationChoice::Reset,
        result.1.confirmed == !(authorizations.allow_unattended_destructive || authorizations.allow_unattended_permanent_removal),
{
    let mut form = ProfileForm::from_profile(profile, schedule);
    form.name = next_clone_name(existing, profile.name.as_str());
    form.peer_a = form.peer_a.without_saved_credentials();
    form.peer_b = form.peer_b.without_saved_credentials();
    form.deletion_method = if form.safe_delete { Some(DeletionMethod::Trash) } else { None };
    let state = CloneState {
        source_endpoints: Some((profile.peer_a.duplicate(), profile.peer_b.duplicate())),
        source_authorizations: authorizations,
        choice: CloneAuthorizationChoice::Reset,
        confirmed: !(authorizations.allow_unattended_destructive || authorizations.allow_unattended_permanent_removal),
    };
    (form, state)
}

/// How an endpoint reads in the review summary.
pub open spec fn endpoint_summary_text(endpoint: EndpointForm) -> Seq<char> {
    match endpoint.kind {
        EndpointKind::Local => if trimmed(endpoint.local_path@).len() == 0 {
            "Not selected"@
        } else {
            trimmed(endpoint.local_path@)
        },
        EndpointKind::Ssh => if trimmed(endpoint.server@).len() == 0 || trimmed(endpoint.username@).len() == 0
            || trimmed(endpoint.remote_path@).len() == 0 {
            "SSH peer not fully configured"@
        } else {
            trimmed(endpoint.username@) + "@"@ + trimmed(endpoint.server@) + ":"@ + trimmed(endpoint.port@)
                + trimmed(endpoint.remote_path@)
        },
    }
}

pub fn endpoint_summary(endpoint: &EndpointForm) -> (summary: String)
    ensures
        summary@ == endpoint_summary_text(*endpoint),
{
    match endpoint.kind {
        EndpointKind::Local => {
            let path = trim_text(endpoint.local_path.as_str());
            if path.unicode_len() == 0 {
                String::from_str("Not selected")
            } else {
                path
            }
        },
        EndpointKind::Ssh => {
            let server = trim_text(endpoint.server.as_str());
            let username = trim_text(endpoint.username.as_str());
            let remote_path = trim_text(endpoint.remote_path.as_str());
            if server.unicode_len() == 0 || username.unicode_len() == 0 || remote_path.unicode_len() == 0 {
                return String::from_str("SSH peer not fully configured");
            }
            let port = trim_text(endpoint.port.as_str());
            let mut summary = username;
            summary.append("@");
            summary.append(server.as_str());
            summary.append(":");
            summary.append(port.as_str());
            summary.append(remote_path.as_str());
            summary
        },
    }
}


/// The endpoint a validation error is about, and how the diagnostic names it.
pub open spec fn diagnostic_endpoint(form: ProfileForm, error: UiValidationError) -> (Seq<char>, EndpointForm) {
    match error {
        UiValidationError::EmptyPeerName { peer } => if peer@ == "Source"@ {
            ("Source"@, form.peer_a)
        } else {
            ("Destination"@, form.peer_b)
        },
        UiValidationError::EmptyLocalPath { peer } => if peer@ == "Source"@ {
            ("Source"@, form.peer_a)
        } else {
            ("Destination"@, form.peer_b)
        },
        _ => if form.peer_a.kind == EndpointKind::Ssh {
            ("Source"@, form.peer_a)
        } else if form.peer_b.kind == EndpointKind::Ssh {
            ("Destination"@, form.peer_b)
        } else {
            ("Source and destination"@, form.peer_a)
        },
    }
}

pub open spec fn diagnostic_account(endpoint: EndpointForm) -> Seq<char> {
    if endpoint.kind == EndpointKind::Ssh {
        if trimmed(endpoint.username@).len() == 0 { "not configured"@ } else { one_line(trimmed(endpoint.username@)) }
    } else {
        "not applicable (local peer)"@
    }
}

pub open spec fn diagnostic_scope(form: ProfileForm, endpoint: EndpointForm) -> Seq<char> {
    let scope = if endpoint.kind == EndpointKind::Ssh { trimmed(endpoint.remote_path@) } else { trimmed(endpoint.local_path@) };
    if scope.len() == 0 {
        trimmed(form.peer_a.local_path@) + " -> "@ + trimmed(form.peer_b.local_path@)
    } else {
        scope
    }
}

/// The one-line diagnostic for a refused form: the profile, the endpoint
/// and account concerned, the scope, the reason and the next action.
pub open spec fn form_diagnostic(form: ProfileForm, error: UiValidationError) -> Seq<char> {
    let named = diagnostic_endpoint(form, error);
    let profile_name = if trimmed(form.name@).len() == 0 { "(unsaved profile)"@ } else { trimmed(form.name@) };
    "Profile: "@ + one_line(profile_name) + " | Peer: "@ + named.0 + " | Account: "@ + diagnostic_account(named.1)
        + " | Scope: "@ + one_line(diagnostic_scope(form, named.1)) + " | Reason: "@ + one_line(validation_message(error))
        + " | Next action: correct the named typed field and validate the profile again."@
}

pub fn format_form_validation_diagnostic(form: &ProfileForm, error: &UiValidationError) -> (text: String)
    ensures
        text@ == form_diagnostic(*form, *error),
{
    let (peer, endpoint) = match error {
        UiValidationError::EmptyPeerName { peer } | UiValidationError::EmptyLocalPath { peer } => {
            if same_text(peer, "Source") {
                ("Source", &form.peer_a)
            } else {
                ("Destination", &form.peer_b)
            }
        },
        _ => {
            if form.peer_a.kind == EndpointKind::Ssh {
                ("Source", &form.peer_a)
            } else if form.peer_b.kind == EndpointKind::Ssh {
                ("Destination", &form.peer_b)
            } else {
                ("Source and destination", &form.peer_a)
            }
        },
    };
    let account = if endpoint.kind == EndpointKind::Ssh {
        let username = trim_text(endpoint.username.as_str());
        if username.unicode_len() == 0 {
            String::from_str("not configured")
        } else {
            single_line(username.as_str())
        }
    } else {
        String::from_str("not applicable (local peer)")
    };
    let own_scope = if endpoint.kind == EndpointKind::Ssh {
        trim_text(endpoint.remote_path.as_str())
    } else {
        trim_text(endpoint.local_path.as_str())
    };
    let scope = if own_scope.unicode_len() == 0 {
        let mut both = trim_text(form.peer_a.local_path.as_str());
        both.append(" -> ");
        let destination = trim_text(form.peer_b.local_path.as_str());
        both.append(destination.as_str());
        both
    } else {
        own_scope
    };
    let trimmed_name = trim_text(form.name.as_str());
    let profile_name = if trimmed_name.unicode_len() == 0 { String::from_str("(unsaved profile)") } else { trimmed_name };
    let mut text = String::from_str("Profile: ");
    text.append(single_line(profile_name.as_str()).as_str());
    text.append(" | Peer: ");
    text.append(peer);
    text.append(" | Account: ");
    text.append(account.as_str());
    text.append(" | Scope: ");
    text.append(single_line(scope.as_str()).as_str());
    text.append(" | Reason: ");
    text.append(single_line(error.message().as_str()).as_str());
    text.append(" | Next action: correct the named typed field and validate the profile again.");
    text
}


/// Whether a clone copies the source's unattended destructive authority.
#[derive(Debug, Clone, Copy, PartialEq, Eq, Structural)]
pub enum CloneAuthorizationChoice {
    Reset,
    CopyUnattendedDestructive,
}

/// The form is a clone of another profile: that profile's endpoints, if
/// they could be read, and its authorizations, and the choice the user made.
#[derive(Debug, Clone, PartialEq, Eq)]
pub struct CloneState {
    pub source_endpoints: Option<(Peer, Peer)>,
    pub source_authorizations: AuthorizationSnapshot,
    pub choice: CloneAuthorizationChoice,
    pub confirmed: bool,
}

/// Two peers reach the same folder: the same local root, or the same
/// account, server, port and remote folder.
pub open spec fn same_endpoint(a: Peer, b: Peer) -> bool {
    match (a.endpoint, b.endpoint) {
        (PeerEndpoint::Local { root: x }, PeerEndpoint::Local { root: y }) => x@ == y@,
        (PeerEndpoint::Ssh(x), PeerEndpoint::Ssh(y)) => x.server@ == y.server@ && x.username@ == y.username@
            && x.port == y.port && x.remote_path@ == y.remote_path@,
        _ => false,
    }
}

pub fn endpoints_match(a: &Peer, b: &Peer) -> (same: bool)
    ensures
        same == same_endpoint(*a, *b),
{
    match (&a.endpoint, &b.endpoint) {
        (PeerEndpoint::Local { root: x }, PeerEndpoint::Local { root: y }) => same_text(x.as_str(), y.as_str()),
        (PeerEndpoint::Ssh(x), PeerEndpoint::Ssh(y)) => same_text(x.server.as_str(), y.server.as_str())
            && same_text(x.username.as_str(), y.username.as_str()) && x.port == y.port
            && same_text(x.remote_path.as_str(), y.remote_path.as_str()),
        _ => false,
    }
}

/// The authorizations a saved profile gets, or why a clone cannot be saved:
/// a clone must change an endpoint; copying unattended authority needs an
/// explicit confirmation and Advanced Mode; only the destructive authority
/// is ever copied, and Permanent Removal authority stays the form's own.
pub open spec fn clone_outcome(
    clone: Option<CloneState>,
    profile: SyncProfile,
    profile_authorizations: AuthorizationSnapshot,
    mode: ApplicationMode,
) -> Result<AuthorizationSnapshot, UiValidationError> {
    match clone {
        None => Ok(profile_authorizations),
        Some(state) => match state.source_endpoints {
            None => Err(UiValidationError::Core(arbitrary())),
            Some(endpoints) => if same_endpoint(profile.peer_a, endpoints.0) && same_endpoint(profile.peer_b, endpoints.1) {
                Err(UiValidationError::CloneEndpointsUnchanged)
            } else if (state.source_authorizations.allow_unattended_destructive
                || state.source_authorizations.allow_unattended_permanent_removal) && !state.confirmed {
                Err(UiValidationError::CloneAuthorizationConfirmationRequired)
            } else if state.choice == CloneAuthorizationChoice::CopyUnattendedDestructive && mode != ApplicationMode::Advanced {
                Err(UiValidationError::CloneAuthorizationConfirmationRequired)
            } else {
                Ok(AuthorizationSnapshot {
                    allow_unattended_destructive: state.choice == CloneAuthorizationChoice::CopyUnattendedDestructive
                        && state.source_authorizations.allow_unattended_destructive,
                    allow_unattended_permanent_removal: profile_authorizations.allow_unattended_permanent_removal,
                })
            },
        },
    }
}

pub fn validate_clone(
    clone: &Option<CloneState>,
    profile: &SyncProfile,
    profile_authorizations: AuthorizationSnapshot,
    mode: ApplicationMode,
) -> (result: Result<AuthorizationSnapshot, UiValidationError>)
    ensures
        match clone_outcome(*clone, *profile, profile_authorizations, mode) {
            Err(UiValidationError::Core(_)) => result matches Err(error) && error is Core,
            expected => result == expected,
        },
{
    let state = match clone {
        None => return Ok(profile_authorizations),
        Some(state) => state,
    };
    let (source_a, source_b) = match &state.source_endpoints {
        None => return Err(UiValidationError::Core(String::from_str(
            "clone source endpoints are unavailable; start the clone again"))),
        Some(endpoints) => (&endpoints.0, &endpoints.1),
    };
    if endpoints_match(&profile.peer_a, source_a) && endpoints_match(&profile.peer_b, source_b) {
        return Err(UiValidationError::CloneEndpointsUnchanged);
    }
    let source = state.source_authorizations;
    if (source.allow_unattended_destructive || source.allow_unattended_permanent_removal) && !state.confirmed {
        return Err(UiValidationError::CloneAuthorizationConfirmationRequired);
    }
    let copy_destructive = state.choice == CloneAuthorizationChoice::CopyUnattendedDestructive;
    if copy_destructive && mode != ApplicationMode::Advanced {
        return Err(UiValidationError::CloneAuthorizationConfirmationRequired);
    }
    Ok(AuthorizationSnapshot {
        allow_unattended_destructive: copy_destructive && source.allow_unattended_destructive,
        allow_unattended_permanent_removal: profile_authorizations.allow_unattended_permanent_removal,
    })
}

/// The check a wizard step must pass before the wizard moves on.
pub open spec fn step_outcome(
    step: ProfileWizardStep,
    form: ProfileForm,
    clone: Option<CloneState>,
    profile_authorizations: AuthorizationSnapshot,
    mode: ApplicationMode,
    profile: SyncProfile,
) -> Result<(), UiValidationError> {
    match step {
        ProfileWizardStep::SyncMethod => if trimmed(form.name@).len() == 0 {
            Err(UiValidationError::EmptyProfileName)
        } else {
            Ok(())
        },
        ProfileWizardStep::SourceEndpoint => match endpoint_error(form.peer_a, "Source") {
            Some(error) => Err(error),
            None => Ok(()),
        },
        ProfileWizardStep::DestinationEndpoint => match endpoint_error(form.peer_b, "Destination") {
            Some(error) => Err(error),
            None => Ok(()),
        },
        ProfileWizardStep::ReviewAndSave => match profile_error(form) {
            Some(error) => Err(error),
            None => match clone_outcome(clone, profile, profile_authorizations, mode) {
                Err(error) => Err(error),
                Ok(authorizations) => if mode == ApplicationMode::Advanced && form.schedule_enabled
                    && schedule_error(form) is Some {
                    Err(schedule_error(form).unwrap())
                } else if profile.options.deletion_method == Some(DeletionMethod::PermanentRemoval)
                    && mode != ApplicationMode::Advanced {
                    Err(UiValidationError::PermanentRemovalRequiresAdvanced)
                } else if profile.options.deletion_method == Some(DeletionMethod::PermanentRemoval)
                    && !authorizations.allow_unattended_permanent_removal {
                    Err(UiValidationError::PermanentRemovalAuthorizationRequired)
                } else {
                    Ok(())
                },
            },
        },
    }
}

/// The wizard lets a profile that removes sources permanently past its
/// last step only in Advanced Mode and with the separate authorization
/// for unattended Permanent Removal.
pub proof fn wizard_passes_permanent_removal_only_when_authorized(
    form: ProfileForm,
    clone: Option<CloneState>,
    profile_authorizations: AuthorizationSnapshot,
    mode: ApplicationMode,
    profile: SyncProfile,
)
    ensures
        step_outcome(ProfileWizardStep::ReviewAndSave, form, clone, profile_authorizations, mode, profile) is Ok
            && profile.options.deletion_method == Some(DeletionMethod::PermanentRemoval)
            ==> mode == ApplicationMode::Advanced
                && clone_outcome(clone, profile, profile_authorizations, mode) is Ok
                && clone_outcome(clone, profile, profile_authorizations, mode)->Ok_0.allow_unattended_permanent_removal,
{
}

/// Checks one wizard step; the last step checks the whole profile, the
/// clone rules, the schedule in Advanced Mode, and Permanent Removal.
pub fn wizard_step_validation(
    step: ProfileWizardStep,
    form: &ProfileForm,
    clone: &Option<CloneState>,
    profile_authorizations: AuthorizationSnapshot,
    mode: ApplicationMode,
) -> (result: Result<(), UiValidationError>)
    ensures
        step != ProfileWizardStep::ReviewAndSave ==> result == step_outcome(step, *form, *clone, profile_authorizations, mode, arbitrary()),
        step == ProfileWizardStep::ReviewAndSave ==> match profile_error(*form) {
            Some(error) => result == Err::<(), UiValidationError>(error),
            None => exists|profile: SyncProfile| profile_fits(profile, *form) && match step_outcome(step, *form, *clone, profile_authorizations, mode, profile) {
                Err(UiValidationError::Core(_)) => result matches Err(error) && error is Core,
                expected => result == expected,
            },
        },
{
    match step {
        ProfileWizardStep::SyncMethod => {
            if is_blank(form.name.as_str()) {
                return Err(UiValidationError::EmptyProfileName);
            }
            Ok(())
        },
        ProfileWizardStep::SourceEndpoint => {
            form.peer_a.build("Source")?;
            Ok(())
        },
        ProfileWizardStep::DestinationEndpoint => {
            form.peer_b.build("Destination")?;
            Ok(())
        },
        ProfileWizardStep::ReviewAndSave => {
            let profile = form.build()?;
            let authorizations = validate_clone(clone, &profile, profile_authorizations, mode)?;
            if mode == ApplicationMode::Advanced && form.schedule_enabled {
                form.build_schedule()?;
            }
            let permanent = profile.options.deletion_method == Some(DeletionMethod::PermanentRemoval);
            if permanent && mode != ApplicationMode::Advanced {
                return Err(UiValidationError::PermanentRemovalRequiresAdvanced);
            }
            if permanent && !authorizations.allow_unattended_permanent_removal {
                return Err(UiValidationError::PermanentRemovalAuthorizationRequired);
            }
            Ok(())
        },
    }
}

/// What saving the form stores: the profile, its authorizations and, in
/// Advanced Mode, its schedule.
#[derive(Debug, Clone, PartialEq, Eq)]
pub struct ProfileSave {
    pub profile: SyncProfile,
    pub authorizations: AuthorizationSnapshot,
    pub schedule: Option<ScheduleDefinition>,
}

/// The keyring references of a profile's saved-password peers, Peer A first.
pub open spec fn saved_references(profile: SyncProfile) -> Seq<Seq<char>> {
    peer_reference(profile.peer_a) + peer_reference(profile.peer_b)
}

pub open spec fn peer_reference(peer: Peer) -> Seq<Seq<char>> {
    match peer.endpoint {
        PeerEndpoint::Ssh(ssh) => match ssh.authentication {
            SshAuthentication::SavedPassword(reference) => seq![reference@],
            _ => Seq::empty(),
        },
        _ => Seq::empty(),
    }
}

fn push_reference(references: &mut Vec<String>, peer: &Peer)
    ensures
        string_views(final(references)@) == string_views(old(references)@) + peer_reference(*peer),
{
    let ghost before = string_views(references@);
    if let PeerEndpoint::Ssh(ssh) = &peer.endpoint {
        if let SshAuthentication::SavedPassword(reference) = &ssh.authentication {
            references.push(reference.clone());
            assert(string_views(references@) =~= before + peer_reference(*peer));
            return;
        }
    }
    assert(string_views(references@) =~= before + peer_reference(*peer));
}

/// The keyring entries a save needs, so that their availability can be
/// checked before the profile is saved.
pub fn saved_secret_references(profile: &SyncProfile) -> (references: Vec<String>)
    ensures
        string_views(references@) == saved_references(*profile),
{
    let mut references: Vec<String> = Vec::new();
    assert(string_views(references@) =~= Seq::<Seq<char>>::empty());
    push_reference(&mut references, &profile.peer_a);
    push_reference(&mut references, &profile.peer_b);
    references
}

/// Whether a save of the built `profile` goes ahead, refused at the first
/// failed check after the profile itself: the saved passwords must be
/// available, a clone must pass the clone rules, a schedule is checked in
/// Advanced Mode, and Permanent Removal needs Advanced Mode and its own
/// authorization. On success, the authorizations to store.
pub open spec fn save_checks(
    form: ProfileForm,
    clone: Option<CloneState>,
    profile_authorizations: AuthorizationSnapshot,
    mode: ApplicationMode,
    secrets_available: bool,
    profile: SyncProfile,
) -> Result<AuthorizationSnapshot, UiValidationError> {
    if !secrets_available {
        Err(UiValidationError::SavedSecretUnavailable)
    } else {
        match clone_outcome(clone, profile, profile_authorizations, mode) {
            Err(error) => Err(error),
            Ok(authorizations) => if mode == ApplicationMode::Advanced && schedule_error(form) is Some {
                Err(schedule_error(form).unwrap())
            } else if profile.options.deletion_method == Some(DeletionMethod::PermanentRemoval)
                && mode != ApplicationMode::Advanced {
                Err(UiValidationError::PermanentRemovalRequiresAdvanced)
            } else if profile.options.deletion_method == Some(DeletionMethod::PermanentRemoval)
                && !authorizations.allow_unattended_permanent_removal {
                Err(UiValidationError::PermanentRemovalAuthorizationRequired)
            } else {
                Ok(authorizations)
            },
        }
    }
}

/// A save that goes ahead with Permanent Removal as the deletion method
/// was made in Advanced Mode and carries the separate authorization for
/// unattended Permanent Removal; and no save goes ahead while a saved
/// password is missing from the keyring.
pub proof fn permanent_removal_saves_carry_their_authorization(
    form: ProfileForm,
    clone: Option<CloneState>,
    profile_authorizations: AuthorizationSnapshot,
    mode: ApplicationMode,
    secrets_available: bool,
    profile: SyncProfile,
)
    ensures
        save_checks(form, clone, profile_authorizations, mode, secrets_available, profile) is Ok
            && profile.options.deletion_method == Some(DeletionMethod::PermanentRemoval)
            ==> save_checks(form, clone, profile_authorizations, mode, secrets_available, profile)->Ok_0.allow_unattended_permanent_removal
                && mode == ApplicationMode::Advanced,
        save_checks(form, clone, profile_authorizations, mode, secrets_available, profile) is Ok ==> secrets_available,
{
}

/// Validates the form for saving. `secrets_available` tells whether the
/// keyring holds every entry of `saved_secret_references` for the built
/// profile.
pub fn prepare_profile_save(
    form: &ProfileForm,
    clone: &Option<CloneState>,
    profile_authorizations: AuthorizationSnapshot,
    mode: ApplicationMode,
    secrets_available: bool,
) -> (result: Result<ProfileSave, UiValidationError>)
    ensures
        match profile_error(*form) {
            Some(error) => result == Err::<ProfileSave, UiValidationError>(error),
            None => exists|profile: SyncProfile| #[trigger] profile_fits(profile, *form)
                && match save_checks(*form, *clone, profile_authorizations, mode, secrets_available, profile) {
                    Err(UiValidationError::Core(_)) => result matches Err(error) && error is Core,
                    Err(error) => result == Err::<ProfileSave, UiValidationError>(error),
                    Ok(authorizations) => result matches Ok(save) && {
                        &&& save.profile == profile
                        &&& save.authorizations == authorizations
                        &&& match save.schedule {
                            Some(schedule) => mode == ApplicationMode::Advanced && schedule_fits(schedule, *form),
                            None => mode != ApplicationMode::Advanced,
                        }
                    },
                },
        },        result is Ok && result->Ok_0.profile.options.deletion_method == Some(DeletionMethod::PermanentRemoval)
            ==> result->Ok_0.authorizations.allow_unattended_permanent_removal && mode == ApplicationMode::Advanced,
        result is Ok ==> secrets_available,
{
    let profile = form.build()?;
    if !secrets_available {
        return Err(UiValidationError::SavedSecretUnavailable);
    }
    let authorizations = validate_clone(clone, &profile, profile_authorizations, mode)?;
    let schedule = if mode == ApplicationMode::Advanced {
        Some(form.build_schedule()?)
    } else {
        None
    };
    let permanent = profile.options.deletion_method == Some(DeletionMethod::PermanentRemoval);
    if permanent && mode != ApplicationMode::Advanced {
        return Err(UiValidationError::PermanentRemovalRequiresAdvanced);
    }
    if permanent && !authorizations.allow_unattended_permanent_removal {
        return Err(UiValidationError::PermanentRemovalAuthorizationRequired);
    }
    Ok(ProfileSave { profile, authorizations, schedule })
}

/// The deletion method once the Safe Delete choice is applied: none without
/// Safe Delete; the Trash when Safe Delete was just switched on with no
/// method chosen; otherwise the method as chosen.
pub fn safety_deletion_method(
    safe_delete: bool,
    safe_delete_changed: bool,
    deletion_method: Option<DeletionMethod>,
) -> (method: Option<DeletionMethod>)
    ensures
        method == (if !safe_delete {
            None
        } else if safe_delete_changed && deletion_method is None {
            Some(DeletionMethod::Trash)
        } else {
            deletion_method
        }),
{
    if !safe_delete {
        None
    } else if safe_delete_changed && deletion_method.is_none() {
        Some(DeletionMethod::Trash)
    } else {
        deletion_method
    }
}

/// The unattended authorizations a profile may keep: unattended destructive
/// actions only while Safe Delete or Destination Cleanup is on, and
/// unattended Permanent Removal only while Permanent Removal is the chosen
/// method.
pub fn normalize_profile_authorizations(
    safe_delete: bool,
    destination_cleanup: bool,
    deletion_method: Option<DeletionMethod>,
    authorizations: AuthorizationSnapshot,
) -> (normalized: AuthorizationSnapshot)
    ensures
        normalized == (AuthorizationSnapshot {
            allow_unattended_destructive: authorizations.allow_unattended_destructive && (safe_delete || destination_cleanup),
            allow_unattended_permanent_removal: authorizations.allow_unattended_permanent_removal
                && deletion_method == Some(DeletionMethod::PermanentRemoval),
        }),
{
    let permanent = match deletion_method {
        Some(DeletionMethod::PermanentRemoval) => true,
        _ => false,
    };
    AuthorizationSnapshot {
        allow_unattended_destructive: authorizations.allow_unattended_destructive && (safe_delete || destination_cleanup),
        allow_unattended_permanent_removal: authorizations.allow_unattended_permanent_removal && permanent,
    }
}

/// The authorizations of a clone once its authorization choice changes:
/// unattended destructive authority only when the clone copies it and the
/// source had it; Permanent Removal authority as the profile held it.
pub fn clone_choice_authorizations(
    choice: CloneAuthorizationChoice,
    source: AuthorizationSnapshot,
    profile: AuthorizationSnapshot,
) -> (authorizations: AuthorizationSnapshot)
    ensures
        authorizations == (AuthorizationSnapshot {
            allow_unattended_destructive: choice == CloneAuthorizationChoice::CopyUnattendedDestructive
                && source.allow_unattended_destructive,
            allow_unattended_permanent_removal: profile.allow_unattended_permanent_removal,
        }),
{
    let copy = match choice {
        CloneAuthorizationChoice::CopyUnattendedDestructive => true,
        CloneAuthorizationChoice::Reset => false,
    };
    AuthorizationSnapshot {
        allow_unattended_destructive: copy && source.allow_unattended_destructive,
        allow_unattended_permanent_removal: profile.allow_unattended_permanent_removal,
    }
}

} // verus!
