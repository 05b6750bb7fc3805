use vstd::prelude::*;
use vstd::string::*;

verus! {

/// What names a release build.
#[derive(Debug, Clone)]
pub struct BuildVars {
    pub name: String,
    pub version: String,
    pub target: String,
}

/// `name-version-target`.
pub open spec fn build_title_of(name: Seq<char>, version: Seq<char>, target: Seq<char>) -> Seq<
    char,
> {
    name + "-"@ + version + "-"@ + target
}

/// The disk image's file name: the build title with `.dmg`.
pub open spec fn dmg_file_name_of(name: Seq<char>, version: Seq<char>, target: Seq<char>) -> Seq<
    char,
> {
    build_title_of(name, version, target) + ".dmg"@
}

/// Where the bundler leaves the application bundle for a target.
pub open spec fn bundle_source_of(target: Seq<char>) -> Seq<char> {
    "./target/"@ + target + "/release/bundle/osx"@
}

/// The shell command that packs the bundle into a compressed disk image.
pub open spec fn dmg_command_of(name: Seq<char>, version: Seq<char>, target: Seq<char>) -> Seq<
    char,
> {
    "hdiutil create -volname "@ + build_title_of(name, version, target) + " -srcfolder "@
        + bundle_source_of(target) + " -ov -format UDZO "@ + dmg_file_name_of(
        name,
        version,
        target,
    )
}

impl BuildVars {
    /// `name-version-target`.
    pub fn build_title(&self) -> (r: String)
        ensures
            r@ == build_title_of(self.name@, self.version@, self.target@),
    {
        let mut t = self.name.clone();
        t.append("-");
        t.append(self.version.as_str());
        t.append("-");
        t.append(self.target.as_str());
        t
    }

    /// The disk image's file name.
    pub fn dmg_file_name(&self) -> (r: String)
        ensures
            r@ == dmg_file_name_of(self.name@, self.version@, self.target@),
    {
        let mut f = self.build_title();
        f.append(".dmg");
        f
    }

    /// Where the bundler leaves the application bundle.
    pub fn bundle_source(&self) -> (r: String)
        ensures
            r@ == bundle_source_of(self.target@),
    {
        let mut s = String::from_str("./target/");
        s.append(self.target.as_str());
        s.append("/release/bundle/osx");
        s
    }

    /// The shell command that creates the disk image.
    pub fn create_dmg_command(&self) -> (r: String)
        ensures
            r@ == dmg_command_of(self.name@, self.version@, self.target@),
    {
        let title = self.build_title();
        let source = self.bundle_source();
        let file = self.dmg_file_name();
        let mut cmd = String::from_str("hdiutil create -volname ");
        cmd.append(title.as_str());
        cmd.append(" -srcfolder ");
        cmd.append(source.as_str());
        cmd.append(" -ov -format UDZO ");
        cmd.append(file.as_str());
        assert(cmd@ =~= dmg_command_of(self.name@, self.version@, self.target@));
        cmd
    }
}

} // verus!
