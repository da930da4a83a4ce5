//! What the user asks for: the Steam depot to download and where to put it.

use vstd::prelude::*;
use vstd::string::*;
use crate::platform::{separator_spec, Os};

verus! {

/// The options of a download, as plain values.
pub struct VectumOptionsView {
    /// Index of the terminal to run the download in, if one was picked.
    pub terminal: Option<u8>,
    /// Directory under which the download goes, if one was picked.
    pub output_directory: Option<Seq<char>>,
    /// Name of the directory the download goes into, if one was given.
    pub directory_name: Option<Seq<char>>,
}

/// A download request, as plain values.
pub struct SteamDownloadView {
    pub username: Option<Seq<char>>,
    pub password: Option<Seq<char>>,
    pub app_id: Seq<char>,
    pub depot_id: Seq<char>,
    pub manifest_id: Seq<char>,
    pub options: VectumOptionsView,
}

impl SteamDownloadView {
    /// Without both a user name and a password the download is anonymous.
    pub open spec fn is_anonymous(self) -> bool {
        self.username is None || self.password is None
    }

    /// The download directory: the chosen output directory (or `.`), the
    /// separator `sep`, then the chosen directory name (or the manifest id).
    pub open spec fn output_path(self, sep: Seq<char>) -> Seq<char> {
        let base = match self.options.output_directory {
            Some(dir) => dir,
            None => "."@,
        };
        let name = match self.options.directory_name {
            Some(n) => n,
            None => self.manifest_id,
        };
        base + sep + name
    }
}

/// The options that come with a download request.
#[derive(Debug)]
pub struct VectumOptions {
    terminal: Option<u8>,
    output_directory: Option<String>,
    directory_name: Option<String>,
}

/// The data needed to download a depot from Steam.
#[derive(Debug)]
pub struct SteamDownload {
    username: Option<String>,
    password: Option<String>,
    app_id: String,
    depot_id: String,
    manifest_id: String,
    options: VectumOptions,
}

impl View for VectumOptions {
    type V = VectumOptionsView;

    closed spec fn view(&self) -> VectumOptionsView {
        VectumOptionsView {
            terminal: self.terminal,
            output_directory: self.output_directory.deep_view(),
            directory_name: self.directory_name.deep_view(),
        }
    }
}

impl View for SteamDownload {
    type V = SteamDownloadView;

    closed spec fn view(&self) -> SteamDownloadView {
        SteamDownloadView {
            username: self.username.deep_view(),
            password: self.password.deep_view(),
            app_id: self.app_id@,
            depot_id: self.depot_id@,
            manifest_id: self.manifest_id@,
            options: self.options@,
        }
    }
}

impl VectumOptions {
    pub fn new(
        terminal: Option<u8>,
        output_directory: Option<String>,
        directory_name: Option<String>,
    ) -> (r: VectumOptions)
        ensures
            r@ == (VectumOptionsView {
                terminal,
                output_directory: output_directory.deep_view(),
                directory_name: directory_name.deep_view(),
            }),
    {
        VectumOptions { terminal, output_directory, directory_name }
    }

    pub fn terminal(&self) -> (r: &Option<u8>)
        ensures
            *r == self@.terminal,
    {
        &self.terminal
    }

    pub fn output_directory(&self) -> (r: &Option<String>)
        ensures
            r.deep_view() == self@.output_directory,
    {
        &self.output_directory
    }

    pub fn directory_name(&self) -> (r: &Option<String>)
        ensures
            r.deep_view() == self@.directory_name,
    {
        &self.directory_name
    }
}

impl SteamDownload {
    pub fn new(
        username: Option<String>,
        password: Option<String>,
        app_id: String,
        depot_id: String,
        manifest_id: String,
        options: VectumOptions,
    ) -> (r: SteamDownload)
        ensures
            r@ == (SteamDownloadView {
                username: username.deep_view(),
                password: password.deep_view(),
                app_id: app_id@,
                depot_id: depot_id@,
                manifest_id: manifest_id@,
                options: options@,
            }),
    {
        SteamDownload { username, password, app_id, depot_id, manifest_id, options }
    }

    pub fn username(&self) -> (r: &Option<String>)
        ensures
            r.deep_view() == self@.username,
    {
        &self.username
    }

    pub fn password(&self) -> (r: &Option<String>)
        ensures
            r.deep_view() == self@.password,
    {
        &self.password
    }

    pub fn app_id(&self) -> (r: &String)
        ensures
            r@ == self@.app_id,
    {
        &self.app_id
    }

    pub fn depot_id(&self) -> (r: &String)
        ensures
            r@ == self@.depot_id,
    {
        &self.depot_id
    }

    pub fn manifest_id(&self) -> (r: &String)
        ensures
            r@ == self@.manifest_id,
    {
        &self.manifest_id
    }

    pub fn options(&self) -> (r: &VectumOptions)
        ensures
            r@ == self@.options,
    {
        &self.options
    }

    /// If a user name or a password is missing, the download is anonymous.
    pub fn is_anonymous(&self) -> (r: bool)
        ensures
            r == self@.is_anonymous(),
    {
        self.username.is_none() || self.password.is_none()
    }

    /// The directory the download goes to, with `sep` between the output
    /// directory and the directory name.
    pub fn output_path_with(&self, sep: &str) -> (r: String)
        ensures
            r@ == self@.output_path(sep@),
    {
        let mut path = match &self.options.output_directory {
            Some(dir) => dir.clone(),
            None => String::from_str("."),
        };
        path.append(sep);
        match &self.options.directory_name {
            Some(name) => path.append(name.as_str()),
            None => path.append(self.manifest_id.as_str()),
        }
        path
    }

    /// The directory the download goes to on `os`, joined with that system's
    /// path separator (`\` on Windows, `/` elsewhere).
    pub fn output_path(&self, os: Os) -> (r: String)
        ensures
            r@ == self@.output_path(separator_spec(os)),
    {
        self.output_path_with(os.separator())
    }
}

/// Every output path is the base directory (the chosen output directory, or
/// `.`), then the separator, then the directory name (or the manifest id):
/// the separator always stands right after the base.
pub proof fn law_output_path_shape(sd: SteamDownloadView, sep: Seq<char>)
    ensures
        ({
            let base = if sd.options.output_directory is Some {
                sd.options.output_directory->0
            } else {
                "."@
            };
            let name = if sd.options.directory_name is Some {
                sd.options.directory_name->0
            } else {
                sd.manifest_id
            };
            let path = sd.output_path(sep);
            &&& path.len() == base.len() + sep.len() + name.len()
            &&& path.take(base.len() as int) == base
            &&& path.subrange(base.len() as int, (base.len() + sep.len()) as int) == sep
            &&& path.skip((base.len() + sep.len()) as int) == name
        }),
{
    let base = if sd.options.output_directory is Some {
        sd.options.output_directory->0
    } else {
        "."@
    };
    let name = if sd.options.directory_name is Some {
        sd.options.directory_name->0
    } else {
        sd.manifest_id
    };
    let path = sd.output_path(sep);
    assert(path =~= base + sep + name);
    assert(path.take(base.len() as int) =~= base);
    assert(path.subrange(base.len() as int, (base.len() + sep.len()) as int) =~= sep);
    assert(path.skip((base.len() + sep.len()) as int) =~= name);
}


/// A request is anonymous exactly when its user name or its password is missing.
pub proof fn law_anonymous(sd: SteamDownloadView)
    ensures
        sd.is_anonymous() <==> (sd.username is None || sd.password is None),
{
}

} // verus!
