//! Code signing: which signing material the environment asks for, and the
//! signing mode that the material at hand allows.

use vstd::prelude::*;
use crate::text::{copy_opt_text, opt_text};

verus! {

/// The environment variable that holds the signing certificate, encoded.
pub const IOS_CERTIFICATE_ENV_VAR_NAME: &'static str = "IOS_CERTIFICATE";

/// The environment variable that holds the certificate's password.
pub const IOS_CERTIFICATE_PASSWORD_ENV_VAR_NAME: &'static str = "IOS_CERTIFICATE_PASSWORD";

/// The environment variable that holds the provisioning profile, encoded.
pub const IOS_MOBILE_PROVISION_ENV_VAR_NAME: &'static str = "IOS_MOBILE_PROVISION";

/// How the application is signed.
#[derive(Clone, Copy, Debug, PartialEq, Eq, Structural)]
pub enum CodeSignStyle {
    /// With the identity and provisioning profile given.
    Manual,
    /// With whatever the platform's tools pick.
    Automatic,
}

/// A signing credential: a certificate that was imported, with the name of
/// its identity and, where the certificate names one, its team.
#[derive(Clone, Debug, PartialEq, Eq)]
pub struct SigningCredential {
    pub signing_identity: String,
    pub team_id: Option<String>,
}

/// A provisioning artifact: a profile that was installed, with its UUID
/// where that could be read from it.
#[derive(Clone, Debug, PartialEq, Eq)]
pub struct ProvisioningArtifact {
    pub uuid: Option<String>,
}

/// The signing settings of a project.
#[derive(Clone, Debug, PartialEq, Eq)]
pub struct IosInitConfig {
    pub code_sign_style: CodeSignStyle,
    pub code_sign_identity: Option<String>,
    pub team_id: Option<String>,
    pub provisioning_profile_uuid: Option<String>,
}

/// The signing mode: manual only where both a credential and a
/// provisioning artifact are present.
pub open spec fn code_sign_style_of(credential: bool, artifact: bool) -> CodeSignStyle {
    if credential && artifact {
        CodeSignStyle::Manual
    } else {
        CodeSignStyle::Automatic
    }
}

/// The identity name that a credential gives.
pub open spec fn identity_of(credential: Option<&SigningCredential>) -> Option<Seq<char>> {
    match credential {
        Some(credential) => Some(credential.signing_identity@),
        None => None,
    }
}

/// The team that a credential gives.
pub open spec fn team_of(credential: Option<&SigningCredential>) -> Option<Seq<char>> {
    match credential {
        Some(credential) => opt_text(credential.team_id),
        None => None,
    }
}

/// The UUID of the provisioning profile: that of the artifact, and only
/// beside a credential. An artifact alone gives none.
pub open spec fn profile_uuid_of(
    credential: Option<&SigningCredential>,
    artifact: Option<&ProvisioningArtifact>,
) -> Option<Seq<char>> {
    match (credential, artifact) {
        (Some(_), Some(artifact)) => opt_text(artifact.uuid),
        _ => None,
    }
}

/// Derives the signing settings from the material at hand.
///
/// With a credential and a provisioning artifact the mode is manual; with
/// either alone, or with neither, it is automatic. The identity and the
/// team are the credential's. The profile's UUID is the artifact's where
/// the mode is manual, and unset otherwise.
pub fn init_config(
    keychain: Option<&SigningCredential>,
    provisioning_profile: Option<&ProvisioningArtifact>,
) -> (config: IosInitConfig)
    ensures
        config.code_sign_style == code_sign_style_of(
            keychain is Some,
            provisioning_profile is Some,
        ),
        opt_text(config.code_sign_identity) == identity_of(keychain),
        opt_text(config.team_id) == team_of(keychain),
        opt_text(config.provisioning_profile_uuid) == profile_uuid_of(
            keychain,
            provisioning_profile,
        ),
{
    match keychain {
        Some(credential) => {
            let code_sign_identity = Some(credential.signing_identity.clone());
            let team_id = copy_opt_text(&credential.team_id);
            match provisioning_profile {
                Some(artifact) => IosInitConfig {
                    code_sign_style: CodeSignStyle::Manual,
                    code_sign_identity,
                    team_id,
                    provisioning_profile_uuid: copy_opt_text(&artifact.uuid),
                },
                None => IosInitConfig {
                    code_sign_style: CodeSignStyle::Automatic,
                    code_sign_identity,
                    team_id,
                    provisioning_profile_uuid: None,
                },
            }
        },
        None => IosInitConfig {
            code_sign_style: CodeSignStyle::Automatic,
            code_sign_identity: None,
            team_id: None,
            provisioning_profile_uuid: None,
        },
    }
}

/// The signing mode by the material at hand. A credential alone signs
/// automatically, under its identity and without a profile; a credential
/// with a provisioning artifact signs manually, under its identity and with
/// the artifact's UUID; an artifact alone, or nothing, signs automatically
/// with everything unset.
pub proof fn lemma_signing_modes(credential: &SigningCredential, artifact: &ProvisioningArtifact)
    ensures
        code_sign_style_of(true, false) == CodeSignStyle::Automatic,
        identity_of(Some(credential)) == Some(credential.signing_identity@),
        team_of(Some(credential)) == opt_text(credential.team_id),
        profile_uuid_of(Some(credential), None) is None,
        code_sign_style_of(true, true) == CodeSignStyle::Manual,
        profile_uuid_of(Some(credential), Some(artifact)) == opt_text(artifact.uuid),
        code_sign_style_of(false, true) == CodeSignStyle::Automatic,
        profile_uuid_of(None, Some(artifact)) is None,
        code_sign_style_of(false, false) == CodeSignStyle::Automatic,
        identity_of(None) is None,
        team_of(None) is None,
        profile_uuid_of(None, None) is None,
{
}

/// The signing material that the environment asks for.
#[derive(Clone, Debug, PartialEq, Eq)]
pub struct SigningRequest {
    /// The certificate to import, with its password.
    pub certificate: Option<(String, String)>,
    /// The provisioning profile to install.
    pub provisioning_profile: Option<String>,
}

/// The certificate that is imported: only where the environment holds
/// both the certificate and its password.
pub open spec fn requested_certificate(
    certificate: Option<String>,
    certificate_password: Option<String>,
) -> Option<(Seq<char>, Seq<char>)> {
    match (certificate, certificate_password) {
        (Some(certificate), Some(password)) => Some((certificate@, password@)),
        _ => None,
    }
}

/// A requested certificate as the contracts see it.
pub open spec fn certificate_text(certificate: Option<(String, String)>) -> Option<
    (Seq<char>, Seq<char>),
> {
    match certificate {
        Some((certificate, password)) => Some((certificate@, password@)),
        None => None,
    }
}

/// Decides from the values of the three signing variables which material
/// is built: a keychain from the certificate where its password is there
/// too, and the provisioning profile where it is set.
pub fn signing_from_env(
    certificate: Option<String>,
    certificate_password: Option<String>,
    provisioning_profile: Option<String>,
) -> (request: SigningRequest)
    ensures
        certificate_text(request.certificate) == requested_certificate(
            certificate,
            certificate_password,
        ),
        opt_text(request.provisioning_profile) == opt_text(provisioning_profile),
{
    let certificate = match certificate {
        Some(certificate) => match certificate_password {
            Some(password) => Some((certificate, password)),
            None => None,
        },
        None => None,
    };
    SigningRequest { certificate, provisioning_profile }
}

/// Why the signing material could not be built.
#[derive(Clone, Copy, Debug, PartialEq, Eq, Structural)]
pub enum SigningError {
    /// The certificate or the provisioning profile is malformed.
    SigningCredentialInvalid,
}

/// Whether the material that was asked for was built: a credential where a
/// certificate was to be imported, an artifact where a profile was to be
/// installed.
pub open spec fn material_complete(
    request: &SigningRequest,
    credential: Option<SigningCredential>,
    artifact: Option<ProvisioningArtifact>,
) -> bool {
    &&& request.certificate is Some ==> credential is Some
    &&& request.provisioning_profile is Some ==> artifact is Some
}

/// Takes what came of building the material that `request` asked for.
///
/// Material that was asked for and is missing could not be built: the
/// credential is invalid. Material that was not asked for is not used.
pub fn signing_material(
    request: &SigningRequest,
    credential: Option<SigningCredential>,
    artifact: Option<ProvisioningArtifact>,
) -> (material: Result<(Option<SigningCredential>, Option<ProvisioningArtifact>), SigningError>)
    ensures
        material is Ok <==> material_complete(request, credential, artifact),
        material matches Ok(built) ==> built.0 == (if request.certificate is Some {
            credential
        } else {
            None
        }),
        material matches Ok(built) ==> built.1 == (if request.provisioning_profile is Some {
            artifact
        } else {
            None
        }),
        material matches Err(error) ==> error == SigningError::SigningCredentialInvalid,
{
    let credential = if request.certificate.is_some() {
        match credential {
            Some(credential) => Some(credential),
            None => {
                return Err(SigningError::SigningCredentialInvalid);
            },
        }
    } else {
        None
    };
    let artifact = if request.provisioning_profile.is_some() {
        match artifact {
            Some(artifact) => Some(artifact),
            None => {
                return Err(SigningError::SigningCredentialInvalid);
            },
        }
    } else {
        None
    };
    Ok((credential, artifact))
}

} // verus!
