//! Durable service identities, owners and fenced instance leases.
use vstd::prelude::*;

verus! {

/// The nil UUID, which no durable identity may use.
pub const NIL_UUID: u128 = 0;

/// The lower-case hexadecimal digit of `d` (below 16).
pub open spec fn spec_hex_digit(d: nat) -> char {
    if d < 10 {
        (48 + d) as char
    } else {
        (87 + d) as char
    }
}

/// The last `digits` hexadecimal digits of `value`, most significant first.
pub open spec fn spec_hex_digits(value: nat, digits: nat) -> Seq<char>
    decreases digits,
{
    if digits == 0 {
        Seq::empty()
    } else {
        spec_hex_digits(value / 16, (digits - 1) as nat).push(spec_hex_digit(value % 16))
    }
}

/// What `uuid::Uuid` prints for a value: its 32 lower-case hexadecimal
/// digits, most significant first, in groups of 8, 4, 4, 4 and 12 joined by
/// hyphens.
pub open spec fn uuid_hyphenated(value: u128) -> Seq<char> {
    let h = spec_hex_digits(value as nat, 32);
    h.subrange(0, 8) + "-"@ + h.subrange(8, 12) + "-"@ + h.subrange(12, 16) + "-"@ + h.subrange(16, 20) + "-"@
        + h.subrange(20, 32)
}

/// Formats a UUID, held as its 128-bit value, in `uuid`'s canonical
/// hyphenated form.
///
/// Trusted: `uuid::Uuid::from_u128`, which keeps the value's bytes in
/// big-endian order, and its `Display` impl, which prints them as
/// lower-case hyphenated hexadecimal.
#[verifier::external_body]
pub(crate) fn uuid_to_string(value: u128) -> (text: String)
    ensures
        text@ == uuid_hyphenated(value),
{
    uuid::Uuid::from_u128(value).to_string()
}

/// A version-4, RFC 4122 variant UUID: its version nibble (bits 76 to 79)
/// is 4 and its variant bits (62 and 63) are `10`.
pub open spec fn spec_random_uuid_layout(value: u128) -> bool {
    &&& (value as int / 0x1000_0000_0000_0000_0000) % 16 == 4
    &&& (value as int / 0x4000_0000_0000_0000) % 4 == 2
}

/// Draws a fresh random (version 4) UUID.
///
/// Trusted: `uuid::Uuid::new_v4`, which masks random bits and sets the
/// version to 4 and the variant to RFC 4122.  The other bits depend on the
/// random number generator, so only that layout is stated.
#[verifier::external_body]
pub(crate) fn random_uuid() -> (value: u128)
    ensures
        spec_random_uuid_layout(value),
{
    uuid::Uuid::new_v4().as_u128()
}

/// Deterministic provider VM identifier of a service instance.
pub open spec fn spec_service_vm_id(instance_id: u128) -> Seq<char> {
    "gateway-service-"@ + uuid_hyphenated(instance_id)
}

/// Returns the deterministic VM identifier `gateway-service-{instance_id}`.
pub fn service_vm_id(instance_id: u128) -> (id: String)
    ensures
        id@ == spec_service_vm_id(instance_id),
{
    let prefix = "gateway-service-".to_owned();
    let uuid = uuid_to_string(instance_id);
    prefix.concat(uuid.as_str())
}

/// Exact immutable identity of one persistent service instance.
#[derive(Debug, Clone, Copy, PartialEq, Eq, Structural, Hash)]
pub struct GatewayServiceIdentity {
    /// Durable instance identity.
    pub instance_id: u128,
    /// Gateway the instance serves.
    pub gateway_id: u128,
    /// Immutable gateway revision the instance runs.
    pub revision_id: u128,
}

impl GatewayServiceIdentity {
    /// No identity field is nil.
    pub open spec fn spec_complete(self) -> bool {
        self.instance_id != NIL_UUID && self.gateway_id != NIL_UUID && self.revision_id != NIL_UUID
    }

    /// Returns whether no identity field is nil.
    pub fn is_complete(&self) -> (complete: bool)
        ensures
            complete == self.spec_complete(),
    {
        self.instance_id != NIL_UUID && self.gateway_id != NIL_UUID && self.revision_id != NIL_UUID
    }
}

/// Stable host and daemon incarnation that owns durable claims.
#[derive(Debug, Clone, PartialEq, Eq)]
pub struct GatewayServiceOwner {
    /// Stable host identity.
    pub host_id: String,
    /// Daemon incarnation.
    pub owner_uuid: u128,
}

/// Malformed owner identity.
#[derive(Debug, Clone, Copy, PartialEq, Eq)]
pub enum GatewayServiceOwnerError {
    /// The host identity is empty or the incarnation is nil.
    InvalidOwner,
}

impl GatewayServiceOwner {
    /// The host identity is nonempty and the incarnation is not nil.
    pub open spec fn spec_valid(&self) -> bool {
        self.host_id@.len() > 0 && self.owner_uuid != NIL_UUID
    }

    /// Creates a validated owner.
    pub fn new(host_id: String, owner_uuid: u128) -> (result: Result<Self, GatewayServiceOwnerError>)
        ensures
            result is Ok <==> (host_id@.len() > 0 && owner_uuid != NIL_UUID),
            result matches Ok(owner) ==> owner.host_id@ == host_id@ && owner.owner_uuid == owner_uuid,
    {
        let owner = GatewayServiceOwner { host_id, owner_uuid };
        match owner.validate() {
            Ok(()) => Ok(owner),
            Err(error) => Err(error),
        }
    }

    /// Validates the owner identity.
    pub fn validate(&self) -> (result: Result<(), GatewayServiceOwnerError>)
        ensures
            result is Ok <==> self.spec_valid(),
    {
        if self.host_id.as_str().is_empty() || self.owner_uuid == NIL_UUID {
            Err(GatewayServiceOwnerError::InvalidOwner)
        } else {
            Ok(())
        }
    }
}

/// Durable lifecycle of one service instance row.
#[derive(Debug, Clone, Copy, PartialEq, Eq, Structural)]
pub enum GatewayServiceInstanceState {
    /// Claimed; the VM is being prepared.
    Provisioning,
    /// The VM is starting and being probed.
    Starting,
    /// The instance serves requests.
    Ready,
    /// The instance is being torn down.
    Stopping,
    /// Physical and durable cleanup completed.
    Cleaned,
}

impl GatewayServiceInstanceState {
    /// A live row still carries cleanup responsibility.
    pub open spec fn spec_is_live(self) -> bool {
        self !is Cleaned
    }

    /// Returns whether the row is not yet cleaned.
    pub fn is_live(self) -> (live: bool)
        ensures
            live == self.spec_is_live(),
    {
        !matches!(self, GatewayServiceInstanceState::Cleaned)
    }
}

/// Complete durable lease of one instance.  Timestamps are Unix nanoseconds.
#[derive(Debug, Clone, PartialEq, Eq)]
pub struct GatewayServiceInstanceLease {
    /// Exact instance identity.
    pub identity: GatewayServiceIdentity,
    /// Host holding the claim.
    pub owner_host_id: String,
    /// Daemon incarnation holding the claim.
    pub owner_uuid: u128,
    /// Monotonic fencing epoch.
    pub fencing_token: i64,
    /// Durable lifecycle state.
    pub state: GatewayServiceInstanceState,
    /// Provider VM identifier.
    pub vm_id: String,
    /// Lease expiry, Unix nanoseconds.
    pub lease_expires_at_nanos: i128,
    /// Last heartbeat, Unix nanoseconds.
    pub heartbeat_at_nanos: i128,
}

/// Durable ownership failures reported by an ownership adapter.
#[derive(Debug, Clone, Copy, PartialEq, Eq)]
pub enum GatewayServiceOwnershipError {
    /// The owner or fence is no longer current.
    StaleLease,
    /// Storage was unavailable.
    Unavailable,
    /// The row conflicts with the request.
    Conflict,
    /// The caller supplied a malformed argument.
    InvalidArgument,
}

} // verus!
