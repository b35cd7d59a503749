//! What a build checks in a package or variant manifest before it starts.
use vstd::prelude::*;
use vstd::string::StringExecFns;
use crate::text::{join, joined, texts};

verus! {

/// The architectures that a variant can be built for.
#[derive(Debug, Clone, Copy, PartialEq, Eq, Structural)]
pub enum SupportedArch {
    X86_64,
    Aarch64,
}

impl SupportedArch {
    /// The name of the architecture.
    pub open spec fn text(self) -> Seq<char> {
        match self {
            SupportedArch::X86_64 => "x86_64"@,
            SupportedArch::Aarch64 => "aarch64"@,
        }
    }

    /// The name of the architecture.
    pub fn to_string(&self) -> (name: String)
        ensures
            name@ == self.text(),
    {
        match self {
            SupportedArch::X86_64 => String::from_str("x86_64"),
            SupportedArch::Aarch64 => String::from_str("aarch64"),
        }
    }
}

/// What a build reads in a manifest before it starts.
#[derive(Debug)]
pub struct Manifest {
    /// The name of the manifest's package.
    pub manifest_name: String,
    /// The name under which the package is built.
    pub package_name: String,
    /// Whether the manifest has a `package-features` section.
    pub package_features: bool,
    /// Whether the manifest has a `variant-sensitive` key.
    pub variant_sensitive: bool,
    /// The architectures that the manifest limits the build to, if it
    /// limits it.
    pub supported_arches: Option<Vec<SupportedArch>>,
}

/// What the build tool is asked to do.
#[derive(Debug)]
pub enum Command {
    BuildPackage { manifest_path: String },
    BuildKit,
    BuildVariant { arch: SupportedArch },
    RepackVariant { arch: SupportedArch },
}

/// The build to launch once the manifest has passed its checks.
#[derive(Debug)]
pub enum Build {
    /// A package, from the spec file `spec`.
    Package { spec: String },
    Kit,
    Variant,
    Repack,
}

/// What a `Build` says.
pub enum BuildView {
    Package { spec: Seq<char> },
    Kit,
    Variant,
    Repack,
}

impl View for Build {
    type V = BuildView;

    open spec fn view(&self) -> BuildView {
        match *self {
            Build::Package { spec } => BuildView::Package { spec: spec@ },
            Build::Kit => BuildView::Kit,
            Build::Variant => BuildView::Variant,
            Build::Repack => BuildView::Repack,
        }
    }
}

/// Why a manifest does not pass.
#[derive(Debug)]
pub enum BuildError {
    /// The variant is not for the architecture.
    UnsupportedArch { arch: SupportedArch, supported_arches: Vec<String> },
    /// The package declares features per variant.
    PackageFeatures { name: String, path: String },
    /// The package declares itself sensitive to the variant.
    VariantSensitive { name: String, path: String },
}

/// What a `BuildError` says.
pub enum BuildErrorView {
    UnsupportedArch { arch: SupportedArch, supported_arches: Seq<Seq<char>> },
    PackageFeatures { name: Seq<char>, path: Seq<char> },
    VariantSensitive { name: Seq<char>, path: Seq<char> },
}

impl BuildErrorView {
    /// The message for the operator.
    pub open spec fn message(self) -> Seq<char> {
        match self {
            BuildErrorView::UnsupportedArch { arch, supported_arches } => {
                "Unsupported architecture "@ + arch.text() + ", this variant supports "@ + joined(
                    supported_arches,
                    ", "@,
                )
            },
            BuildErrorView::PackageFeatures { name, path } => {
                "The manifest for package "@ + name
                    + " has a package.metadata.build-package.package-features section. This functionality has been removed from the build system. Packages are no longer allowed to be aware of what variant they are being built for. Please remove this key from "@
                    + path
            },
            BuildErrorView::VariantSensitive { name, path } => {
                "The manifest for package "@ + name
                    + " has a package.metadata.build-package.variant-sensitive key. This functionality has been removed from the build system. Packages are no longer allowed to be aware of what variant they are being built for. Please remove this key from "@
                    + path
            },
        }
    }
}

impl View for BuildError {
    type V = BuildErrorView;

    open spec fn view(&self) -> BuildErrorView {
        match *self {
            BuildError::UnsupportedArch { arch, supported_arches } => BuildErrorView::UnsupportedArch {
                arch,
                supported_arches: texts(supported_arches@),
            },
            BuildError::PackageFeatures { name, path } => BuildErrorView::PackageFeatures {
                name: name@,
                path: path@,
            },
            BuildError::VariantSensitive { name, path } => BuildErrorView::VariantSensitive {
                name: name@,
                path: path@,
            },
        }
    }
}

impl BuildError {
    /// The message for the operator.
    pub fn message(&self) -> (text: String)
        ensures
            text@ == self@.message(),
    {
        match self {
            BuildError::UnsupportedArch { arch, supported_arches } => {
                let mut text = String::from_str("Unsupported architecture ");
                text.append(arch.to_string().as_str());
                text.append(", this variant supports ");
                text.append(join(supported_arches, ", ").as_str());
                text
            },
            BuildError::PackageFeatures { name, path } => {
                let mut text = String::from_str("The manifest for package ");
                text.append(name.as_str());
                text.append(
                    " has a package.metadata.build-package.package-features section. This functionality has been removed from the build system. Packages are no longer allowed to be aware of what variant they are being built for. Please remove this key from ",
                );
                text.append(path.as_str());
                text
            },
            BuildError::VariantSensitive { name, path } => {
                let mut text = String::from_str("The manifest for package ");
                text.append(name.as_str());
                text.append(
                    " has a package.metadata.build-package.variant-sensitive key. This functionality has been removed from the build system. Packages are no longer allowed to be aware of what variant they are being built for. Please remove this key from ",
                );
                text.append(path.as_str());
                text
            },
        }
    }
}

/// The names of a list of architectures.
pub open spec fn arch_names(arches: Seq<SupportedArch>) -> Seq<Seq<char>> {
    arches.map_values(|arch: SupportedArch| arch.text())
}

/// Whether a variant with this manifest can be built for `arch`: it can
/// unless the manifest limits the architectures and leaves `arch` out.
pub open spec fn arch_check(supported: Option<Seq<SupportedArch>>, arch: SupportedArch) -> Result<
    (),
    BuildErrorView,
> {
    match supported {
        Some(arches) if !arches.contains(arch) => Err(
            BuildErrorView::UnsupportedArch { arch, supported_arches: arch_names(arches) },
        ),
        _ => Ok(()),
    }
}

/// Whether a package with this manifest can be built: it can unless the
/// manifest makes it aware of the variant, by features or by declaring
/// itself sensitive; the features are reported first.
pub open spec fn sensitivity_check(
    package_features: bool,
    variant_sensitive: bool,
    name: Seq<char>,
    path: Seq<char>,
) -> Result<(), BuildErrorView> {
    if package_features {
        Err(BuildErrorView::PackageFeatures { name, path })
    } else if variant_sensitive {
        Err(BuildErrorView::VariantSensitive { name, path })
    } else {
        Ok(())
    }
}

impl Manifest {
    /// The architectures that the manifest limits the build to.
    pub open spec fn arches(self) -> Option<Seq<SupportedArch>> {
        match self.supported_arches {
            Some(arches) => Some(arches@),
            None => None,
        }
    }

    /// The build that `command` asks for, or why this manifest does not
    /// allow it.
    pub open spec fn outcome(self, command: Command) -> Result<BuildView, BuildErrorView> {
        match command {
            Command::BuildPackage { manifest_path } => match sensitivity_check(
                self.package_features,
                self.variant_sensitive,
                self.manifest_name@,
                manifest_path@,
            ) {
                Err(error) => Err(error),
                Ok(_) => Ok(BuildView::Package { spec: self.package_name@ + ".spec"@ }),
            },
            Command::BuildKit => Ok(BuildView::Kit),
            Command::BuildVariant { arch } => match arch_check(self.arches(), arch) {
                Err(error) => Err(error),
                Ok(_) => Ok(BuildView::Variant),
            },
            Command::RepackVariant { arch } => match arch_check(self.arches(), arch) {
                Err(error) => Err(error),
                Ok(_) => Ok(BuildView::Repack),
            },
        }
    }
}

/// `checked` fails exactly when `wanted` does, with the same error, and
/// otherwise shows the same value.
pub open spec fn decides<T: View>(checked: Result<T, BuildError>, wanted: Result<
    T::V,
    BuildErrorView,
>) -> bool {
    match checked {
        Ok(value) => wanted == Ok::<T::V, BuildErrorView>(value@),
        Err(error) => wanted == Err::<T::V, BuildErrorView>(error@),
    }
}

/// Ensures that the variant can be built for `arch`.
pub fn supported_arch(manifest: &Manifest, arch: SupportedArch) -> (checked: Result<(), BuildError>)
    ensures
        match checked {
            Ok(_) => arch_check(manifest.arches(), arch).is_ok(),
            Err(error) => arch_check(manifest.arches(), arch) == Err::<(), BuildErrorView>(error@),
        },
{
    let arches = match &manifest.supported_arches {
        Some(arches) => arches,
        None => {
            return Ok(());
        },
    };
    let mut names: Vec<String> = Vec::new();
    let mut found = false;
    let mut i: usize = 0;
    while i < arches.len()
        invariant
            i <= arches.len(),
            names@.len() == i,
            found <==> arches@.take(i as int).contains(arch),
            forall|j: int| 0 <= j < i ==> #[trigger] names@[j]@ == arches@[j].text(),
        decreases arches.len() - i,
    {
        proof {
            let before = arches@.take(i as int);
            let after = arches@.take(i + 1);
            assert(after =~= before.push(arches@[i as int]));
            assert(after.contains(arch) <==> before.contains(arch) || arches@[i as int] == arch) by {
                if before.contains(arch) {
                    let k = choose|k: int| 0 <= k < before.len() && before[k] == arch;
                    assert(after[k] == arch);
                }
                if arches@[i as int] == arch {
                    assert(after[i as int] == arch);
                }
            }
        }
        if arches[i] == arch {
            found = true;
        }
        names.push(arches[i].to_string());
        i += 1;
    }
    proof {
        assert(arches@.take(arches@.len() as int) =~= arches@);
        assert(texts(names@) =~= arch_names(arches@));
    }
    if found {
        Ok(())
    } else {
        Err(BuildError::UnsupportedArch { arch, supported_arches: names })
    }
}

/// Ensures that the package does not depend on the variant it is built
/// for: a manifest may neither declare features per variant nor declare
/// itself sensitive to the variant.
pub fn ensure_package_is_not_variant_sensitive(manifest: &Manifest, manifest_path: &str) -> (checked:
    Result<(), BuildError>)
    ensures
        match checked {
            Ok(_) => sensitivity_check(
                manifest.package_features,
                manifest.variant_sensitive,
                manifest.manifest_name@,
                manifest_path@,
            ).is_ok(),
            Err(error) => sensitivity_check(
                manifest.package_features,
                manifest.variant_sensitive,
                manifest.manifest_name@,
                manifest_path@,
            ) == Err::<(), BuildErrorView>(error@),
        },
{
    if manifest.package_features {
        return Err(
            BuildError::PackageFeatures {
                name: manifest.manifest_name.clone(),
                path: String::from_str(manifest_path),
            },
        );
    }
    if manifest.variant_sensitive {
        return Err(
            BuildError::VariantSensitive {
                name: manifest.manifest_name.clone(),
                path: String::from_str(manifest_path),
            },
        );
    }
    Ok(())
}

/// Checks the manifest of a package and names its spec file.
pub fn build_package(manifest: &Manifest, manifest_path: &str) -> (build: Result<Build, BuildError>)
    ensures
        match build {
            Ok(build) => sensitivity_check(
                manifest.package_features,
                manifest.variant_sensitive,
                manifest.manifest_name@,
                manifest_path@,
            ).is_ok() && build@ == (BuildView::Package { spec: manifest.package_name@ + ".spec"@ }),
            Err(error) => sensitivity_check(
                manifest.package_features,
                manifest.variant_sensitive,
                manifest.manifest_name@,
                manifest_path@,
            ) == Err::<(), BuildErrorView>(error@),
        },
{
    match ensure_package_is_not_variant_sensitive(manifest, manifest_path) {
        Err(error) => Err(error),
        Ok(_) => {
            let mut spec = manifest.package_name.clone();
            spec.append(".spec");
            Ok(Build::Package { spec })
        },
    }
}

/// A kit needs no check of its manifest.
pub fn build_kit(manifest: &Manifest) -> (build: Result<Build, BuildError>)
    ensures
        decides(build, manifest.outcome(Command::BuildKit)),
{
    Ok(Build::Kit)
}

/// Checks that the variant can be built for `arch`.
pub fn build_variant(manifest: &Manifest, arch: SupportedArch) -> (build: Result<Build, BuildError>)
    ensures
        decides(build, manifest.outcome(Command::BuildVariant { arch })),
{
    match supported_arch(manifest, arch) {
        Err(error) => Err(error),
        Ok(_) => Ok(Build::Variant),
    }
}

/// Checks that the variant can be repacked for `arch`.
pub fn repack_variant(manifest: &Manifest, arch: SupportedArch) -> (build: Result<Build, BuildError>)
    ensures
        decides(build, manifest.outcome(Command::RepackVariant { arch })),
{
    match supported_arch(manifest, arch) {
        Err(error) => Err(error),
        Ok(_) => Ok(Build::Repack),
    }
}

/// Decides what `command` leads to, given the manifest it is about: the
/// build to launch, or the reason why the manifest does not allow it.
pub fn run(command: &Command, manifest: &Manifest) -> (build: Result<Build, BuildError>)
    ensures
        decides(build, manifest.outcome(*command)),
{
    match command {
        Command::BuildPackage { manifest_path } => build_package(manifest, manifest_path.as_str()),
        Command::BuildKit => build_kit(manifest),
        Command::BuildVariant { arch } => build_variant(manifest, *arch),
        Command::RepackVariant { arch } => repack_variant(manifest, *arch),
    }
}

} // verus!
