//! Profile resolution: validating that a named profile from the local
//! configuration store carries all five required SSO attributes.

use vstd::prelude::*;

verus! {

/// A validated SSO profile: all six fields are non-empty.
#[derive(Debug)]
pub struct SsoProfile {
    /// The caller-supplied profile name.
    pub profile_name: String,
    /// The cloud region for general operations.
    pub region: String,
    /// The target account identifier.
    pub sso_account_id: String,
    /// The region hosting the identity service.
    pub sso_region: String,
    /// The role to assume.
    pub sso_role_name: String,
    /// The identity provider's start URL; also the cache key seed.
    pub sso_start_url: String,
}

impl SsoProfile {
    /// The profile's invariant: every field is non-empty.
    pub open spec fn wf(&self) -> bool {
        &&& self.profile_name@.len() > 0
        &&& self.region@.len() > 0
        &&& self.sso_account_id@.len() > 0
        &&& self.sso_region@.len() > 0
        &&& self.sso_role_name@.len() > 0
        &&& self.sso_start_url@.len() > 0
    }
}

/// One of the five profile attributes resolution requires.
#[derive(Clone, Copy, Debug, PartialEq, Eq, Structural)]
pub enum RequiredAttr {
    Region,
    SsoAccountId,
    SsoRegion,
    SsoRoleName,
    SsoStartUrl,
}

impl RequiredAttr {
    /// The attribute's key in the profile store.
    pub open spec fn name_spec(&self) -> Seq<char> {
        match self {
            RequiredAttr::Region => "region"@,
            RequiredAttr::SsoAccountId => "sso_account_id"@,
            RequiredAttr::SsoRegion => "sso_region"@,
            RequiredAttr::SsoRoleName => "sso_role_name"@,
            RequiredAttr::SsoStartUrl => "sso_start_url"@,
        }
    }

    /// The attribute's key in the profile store.
    pub fn name(&self) -> (r: String)
        ensures
            r@ == self.name_spec(),
    {
        match self {
            RequiredAttr::Region => String::from_str("region"),
            RequiredAttr::SsoAccountId => String::from_str("sso_account_id"),
            RequiredAttr::SsoRegion => String::from_str("sso_region"),
            RequiredAttr::SsoRoleName => String::from_str("sso_role_name"),
            RequiredAttr::SsoStartUrl => String::from_str("sso_start_url"),
        }
    }
}

/// Why profile resolution failed: both outcomes are hard failures.
#[derive(Debug)]
pub enum ResolveError {
    /// No profile of the requested name exists in the store.
    ProfileNotFound { profile_name: String },
    /// The profile exists but one required attribute is missing (or empty).
    MissingAttribute { attr: RequiredAttr },
}

impl ResolveError {
    /// The diagnostic line describing the failure.
    pub open spec fn message_spec(&self) -> Seq<char> {
        match self {
            ResolveError::ProfileNotFound { profile_name } => "profile '"@ + profile_name@
                + "' not found"@,
            ResolveError::MissingAttribute { attr } => "profile must have "@ + attr.name_spec()
                + " property set"@,
        }
    }

    /// The diagnostic line describing the failure.
    pub fn message(&self) -> (r: String)
        ensures
            r@ == self.message_spec(),
    {
        match self {
            ResolveError::ProfileNotFound { profile_name } => {
                let mut m = String::from_str("profile '");
                m.append(profile_name.as_str());
                m.append("' not found");
                m
            },
            ResolveError::MissingAttribute { attr } => {
                let mut m = String::from_str("profile must have ");
                let name = attr.name();
                m.append(name.as_str());
                m.append(" property set");
                m
            },
        }
    }
}

/// What the configuration store answered for a named profile: whether a
/// profile of that name exists, and the value of each required attribute,
/// where the store holds one.
#[derive(Debug)]
pub struct ProfileLookup {
    /// Whether a profile of the requested name exists at all.
    pub found: bool,
    pub region: Option<String>,
    pub sso_account_id: Option<String>,
    pub sso_region: Option<String>,
    pub sso_role_name: Option<String>,
    pub sso_start_url: Option<String>,
}

/// Whether a looked-up attribute is usable: present and non-empty. An empty
/// value is no value; absence is a hard failure, never a default.
pub open spec fn attr_present(value: Option<String>) -> bool {
    value matches Some(s) && s@.len() > 0
}

/// Whether a lookup answer lets resolution succeed: the profile exists and
/// every required attribute is usable.
pub open spec fn lookup_complete(lookup: ProfileLookup) -> bool {
    &&& lookup.found
    &&& attr_present(lookup.region)
    &&& attr_present(lookup.sso_account_id)
    &&& attr_present(lookup.sso_region)
    &&& attr_present(lookup.sso_role_name)
    &&& attr_present(lookup.sso_start_url)
}

/// The first unusable attribute of a lookup answer, in the fixed order the
/// attributes are checked.
pub open spec fn first_missing_attr(lookup: ProfileLookup) -> RequiredAttr {
    if !attr_present(lookup.region) {
        RequiredAttr::Region
    } else if !attr_present(lookup.sso_account_id) {
        RequiredAttr::SsoAccountId
    } else if !attr_present(lookup.sso_region) {
        RequiredAttr::SsoRegion
    } else if !attr_present(lookup.sso_role_name) {
        RequiredAttr::SsoRoleName
    } else {
        RequiredAttr::SsoStartUrl
    }
}

/// Take one required attribute out of a lookup answer, or fail naming it.
fn require_attr(value: Option<String>, attr: RequiredAttr) -> (r: Result<String, ResolveError>)
    ensures
        attr_present(value) ==> (r matches Ok(s) && s == value->0),
        !attr_present(value) ==> {
            &&& r matches Err(e)
            &&& e matches ResolveError::MissingAttribute { attr: a }
            &&& a == attr
        },
{
    match value {
        Some(s) => {
            if s.as_str().is_empty() {
                Err(ResolveError::MissingAttribute { attr })
            } else {
                Ok(s)
            }
        },
        None => Err(ResolveError::MissingAttribute { attr }),
    }
}

/// Validate a named profile against what the configuration store answered.
///
/// Resolution succeeds exactly where the profile exists and every one of the
/// five required attributes is present and non-empty; the result is then a
/// pure projection of the five looked-up values. A missing profile fails
/// naming the profile; a missing attribute fails naming the first missing
/// attribute, in the fixed order region, sso_account_id, sso_region,
/// sso_role_name, sso_start_url. No side effects.
pub fn resolve_profile(profile_name: &str, lookup: ProfileLookup) -> (r: Result<
    SsoProfile,
    ResolveError,
>)
    requires
        profile_name@.len() > 0,
    ensures
        !lookup.found ==> {
            &&& r matches Err(e)
            &&& e matches ResolveError::ProfileNotFound { profile_name: n }
            &&& n@ == profile_name@
        },
        lookup.found && !lookup_complete(lookup) ==> {
            &&& r matches Err(e)
            &&& e matches ResolveError::MissingAttribute { attr }
            &&& attr == first_missing_attr(lookup)
        },
        lookup_complete(lookup) ==> {
            &&& r matches Ok(p)
            &&& p.profile_name@ == profile_name@
            &&& p.region == lookup.region->0
            &&& p.sso_account_id == lookup.sso_account_id->0
            &&& p.sso_region == lookup.sso_region->0
            &&& p.sso_role_name == lookup.sso_role_name->0
            &&& p.sso_start_url == lookup.sso_start_url->0
            &&& p.wf()
        },
{
    if !lookup.found {
        return Err(ResolveError::ProfileNotFound { profile_name: String::from_str(profile_name) });
    }
    let ProfileLookup { found: _, region, sso_account_id, sso_region, sso_role_name, sso_start_url }
        = lookup;
    let region = match require_attr(region, RequiredAttr::Region) {
        Ok(s) => s,
        Err(e) => return Err(e),
    };
    let sso_account_id = match require_attr(sso_account_id, RequiredAttr::SsoAccountId) {
        Ok(s) => s,
        Err(e) => return Err(e),
    };
    let sso_region = match require_attr(sso_region, RequiredAttr::SsoRegion) {
        Ok(s) => s,
        Err(e) => return Err(e),
    };
    let sso_role_name = match require_attr(sso_role_name, RequiredAttr::SsoRoleName) {
        Ok(s) => s,
        Err(e) => return Err(e),
    };
    let sso_start_url = match require_attr(sso_start_url, RequiredAttr::SsoStartUrl) {
        Ok(s) => s,
        Err(e) => return Err(e),
    };
    Ok(
        SsoProfile {
            profile_name: String::from_str(profile_name),
            region,
            sso_account_id,
            sso_region,
            sso_role_name,
            sso_start_url,
        },
    )
}

} // verus!
