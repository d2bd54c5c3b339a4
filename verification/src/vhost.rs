//! The virtual-host file of a project: where it is written and what it
//! holds.

use vstd::prelude::*;
use vstd::string::StringExecFns;
use crate::error::{AppError, Failure};
use crate::input::ProjectInput;
use crate::place::Place;

verus! {

/// The virtual-host description for `host`, serving the public directory of
/// the project `name`. The host stands in it once, as the server's name;
/// the project's name twice, in the document root and in the directory
/// block.
pub open spec fn vhost_text(host: Seq<char>, name: Seq<char>) -> Seq<char> {
    "<VirtualHost *:80>\n    # Nome do host que será usado (ex: minha-app.test)\n    ServerName "@
        + host
        + "\n\n    # Diretório raiz do projeto Laravel (montado em /var/www/html/)\n    DocumentRoot /var/www/html/"@
        + name + "/public\n\n    <Directory /var/www/html/"@ + name
        + "/public>\n        AllowOverride All\n         Require all granted\n        DirectoryIndex index.php index.html\n    </Directory>\n\n    <FilesMatch \\.php$>\n        SetHandler \"proxy:fcgi://php:9000\"\n    </FilesMatch>\n</VirtualHost>"@
}

/// The path of the virtual-host file of `host` below the provisioning root.
pub open spec fn vhost_path(root: Place, host: Seq<char>) -> Seq<char> {
    root.spec_below("docker/apache/vhosts"@) + "/"@ + host + ".conf"@
}

/// The error where no provisioning root was found.
pub open spec fn no_root(name: Seq<char>) -> Failure {
    Failure::Io("Não foi possível determinar o diretório raiz do projeto "@ + name + "."@)
}

/// A file to write: an existing one is replaced.
#[derive(Debug, PartialEq, Eq)]
pub struct VhostFile {
    pub path: String,
    pub content: String,
}

/// The virtual-host description for `host` and the project `name`.
pub fn vhost_content(host: &str, name: &str) -> (content: String)
    ensures
        content@ == vhost_text(host@, name@),
{
    String::from_str(
        "<VirtualHost *:80>\n    # Nome do host que será usado (ex: minha-app.test)\n    ServerName ",
    ).concat(host).concat(
        "\n\n    # Diretório raiz do projeto Laravel (montado em /var/www/html/)\n    DocumentRoot /var/www/html/",
    ).concat(name).concat("/public\n\n    <Directory /var/www/html/").concat(name).concat(
        "/public>\n        AllowOverride All\n         Require all granted\n        DirectoryIndex index.php index.html\n    </Directory>\n\n    <FilesMatch \\.php$>\n        SetHandler \"proxy:fcgi://php:9000\"\n    </FilesMatch>\n</VirtualHost>",
    )
}

/// The virtual-host file of a project, given where the provisioning root
/// was found. Without a root there is nothing to write, and the run fails.
pub fn create_vhost_file(input: &ProjectInput, root: Option<Place>) -> (r: Result<
    VhostFile,
    AppError,
>)
    ensures
        match root {
            Some(place) => r matches Ok(file) && file.path@ == vhost_path(place, input@.host)
                && file.content@ == vhost_text(input@.host, input@.name),
            None => r matches Err(e) && e@ == no_root(input@.name),
        },
{
    match root {
        Some(place) => Ok(
            VhostFile {
                path: place.below("docker/apache/vhosts").concat("/").concat(
                    input.project_host.as_str(),
                ).concat(".conf"),
                content: vhost_content(input.project_host.as_str(), input.project_name.as_str()),
            },
        ),
        None => Err(
            AppError::Io(
                String::from_str("Não foi possível determinar o diretório raiz do projeto ").concat(
                    input.project_name.as_str(),
                ).concat("."),
            ),
        ),
    }
}

} // verus!
