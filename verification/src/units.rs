//! Small value types that are not store entities: a freshly generated
//! keypair, the validated deployment configuration, and upload metadata.

use crate::err::ErrKind;
use crate::err::YokaiErr;
use crate::utils::check_color_str;
use crate::utils::check_password;
use crate::utils::check_username;
use crate::utils::valid_color;
use crate::utils::valid_password;
use crate::utils::valid_username;
use vstd::prelude::*;

verus! {

/// A freshly generated RSA keypair, both halves serialized as PEM text.
#[derive(Debug)]
pub struct KeyPair {
    pub private_key: String,
    pub public_key: String,
}

/// The validated deployment configuration: host branding, bind address and
/// the bootstrap admin account.
#[derive(Debug)]
pub struct Config {
    pub hostname: String,
    pub app_host: String,
    pub app_port: String,
    pub primary_color: String,
    pub secondary_color: String,
    pub tertiary_color: String,
    pub admin_username: String,
    pub admin_password: String,
    pub admin_description: String,
    pub admin_display_name: String,
    pub admin_primary_color: String,
    pub admin_tertiary_color: String,
    pub admin_secondary_color: String,
}

/// Metadata accompanying a file upload.
#[derive(Debug)]
pub struct FileMetadata {
    pub name: String,
    pub api_token: String,
}

/// Whether the configuration's validated fields are all well-formed.
pub open spec fn valid_config(c: Config) -> bool {
    &&& valid_username(c.admin_username@)
    &&& valid_password(c.admin_password@)
    &&& valid_color(c.primary_color@)
    &&& valid_color(c.secondary_color@)
    &&& valid_color(c.tertiary_color@)
    &&& valid_color(c.admin_primary_color@)
    &&& valid_color(c.admin_secondary_color@)
    &&& valid_color(c.admin_tertiary_color@)
}

impl Config {
    /// Assembles a configuration from its raw field values, rejecting it
    /// unless the admin credentials and every color string are well-formed.
    /// Succeeds exactly on well-formed values.
    pub fn assemble(
        hostname: String,
        app_host: String,
        app_port: String,
        primary_color: String,
        secondary_color: String,
        tertiary_color: String,
        admin_username: String,
        admin_password: String,
        admin_description: String,
        admin_display_name: String,
        admin_primary_color: String,
        admin_tertiary_color: String,
        admin_secondary_color: String,
    ) -> (r: Result<Config, YokaiErr>)
        ensures
            r matches Ok(c) ==> {
                &&& valid_config(c)
                &&& c.hostname == hostname
                &&& c.app_host == app_host
                &&& c.app_port == app_port
                &&& c.primary_color == primary_color
                &&& c.secondary_color == secondary_color
                &&& c.tertiary_color == tertiary_color
                &&& c.admin_username == admin_username
                &&& c.admin_password == admin_password
                &&& c.admin_description == admin_description
                &&& c.admin_display_name == admin_display_name
                &&& c.admin_primary_color == admin_primary_color
                &&& c.admin_tertiary_color == admin_tertiary_color
                &&& c.admin_secondary_color == admin_secondary_color
            },
            r matches Err(e) ==> e.kind == ErrKind::Validation,
            r is Err <==> !(valid_username(admin_username@) && valid_password(admin_password@)
                && valid_color(primary_color@) && valid_color(secondary_color@) && valid_color(
                tertiary_color@,
            ) && valid_color(admin_primary_color@) && valid_color(admin_secondary_color@)
                && valid_color(admin_tertiary_color@)),
    {
        let ok: bool = check_username(admin_username.as_str()) && check_password(
            admin_password.as_str(),
        ) && check_color_str(primary_color.as_str()) && check_color_str(secondary_color.as_str())
            && check_color_str(tertiary_color.as_str()) && check_color_str(
            admin_primary_color.as_str(),
        ) && check_color_str(admin_secondary_color.as_str()) && check_color_str(
            admin_tertiary_color.as_str(),
        );
        if ok {
            Ok(
                Config {
                    hostname,
                    app_host,
                    app_port,
                    primary_color,
                    secondary_color,
                    tertiary_color,
                    admin_username,
                    admin_password,
                    admin_description,
                    admin_display_name,
                    admin_primary_color,
                    admin_tertiary_color,
                    admin_secondary_color,
                },
            )
        } else {
            Err(
                YokaiErr::of_kind(
                    ErrKind::Validation,
                    "Some colors or the administrator password or username have invalid values.",
                ),
            )
        }
    }
}

} // verus!
