use twoliter::buildsys::{
    build_kit, build_package, build_variant, ensure_package_is_not_variant_sensitive,
    repack_variant, run, supported_arch, Build, BuildError, Command, Manifest, SupportedArch,
};

fn manifest(arches: Option<Vec<SupportedArch>>) -> Manifest {
    Manifest {
        manifest_name: "my-package".to_string(),
        package_name: "my_package".to_string(),
        package_features: false,
        variant_sensitive: false,
        supported_arches: arches,
    }
}

#[test]
fn variant_without_a_list_of_architectures_builds_for_any() {
    assert!(supported_arch(&manifest(None), SupportedArch::X86_64).is_ok());
    assert!(supported_arch(&manifest(None), SupportedArch::Aarch64).is_ok());
}

#[test]
fn variant_builds_for_an_architecture_it_lists() {
    let both = manifest(Some(vec![SupportedArch::Aarch64, SupportedArch::X86_64]));
    assert!(supported_arch(&both, SupportedArch::X86_64).is_ok());
    assert!(supported_arch(&both, SupportedArch::Aarch64).is_ok());
}

#[test]
fn variant_does_not_build_for_an_architecture_it_leaves_out() {
    let only = manifest(Some(vec![SupportedArch::Aarch64]));
    match supported_arch(&only, SupportedArch::X86_64) {
        Err(error) => {
            assert!(matches!(
                &error,
                BuildError::UnsupportedArch { arch: SupportedArch::X86_64, supported_arches }
                    if supported_arches == &vec!["aarch64".to_string()]
            ));
            assert_eq!(
                error.message(),
                "Unsupported architecture x86_64, this variant supports aarch64"
            );
        }
        Ok(_) => panic!("the architecture is not listed"),
    }
    let none = manifest(Some(vec![]));
    match supported_arch(&none, SupportedArch::Aarch64) {
        Err(error) => {
            assert_eq!(error.message(), "Unsupported architecture aarch64, this variant supports ")
        }
        Ok(_) => panic!("no architecture is listed"),
    }
}

#[test]
fn package_with_features_per_variant_is_refused() {
    let mut manifest = manifest(None);
    manifest.package_features = true;
    manifest.variant_sensitive = true;
    match ensure_package_is_not_variant_sensitive(&manifest, "packages/my/Cargo.toml") {
        Err(error) => {
            assert!(matches!(&error, BuildError::PackageFeatures { name, path }
                if name == "my-package" && path == "packages/my/Cargo.toml"));
            assert_eq!(
                error.message(),
                "The manifest for package my-package has a package.metadata.build-package.package-features \
                 section. This functionality has been removed from the build system. Packages are no \
                 longer allowed to be aware of what variant they are being built for. Please remove \
                 this key from packages/my/Cargo.toml"
            );
        }
        Ok(_) => panic!("features per variant are refused"),
    }
}

#[test]
fn package_that_is_sensitive_to_the_variant_is_refused() {
    let mut manifest = manifest(None);
    manifest.variant_sensitive = true;
    match ensure_package_is_not_variant_sensitive(&manifest, "Cargo.toml") {
        Err(error) => {
            assert!(matches!(&error, BuildError::VariantSensitive { .. }));
            assert_eq!(
                error.message(),
                "The manifest for package my-package has a package.metadata.build-package.variant-sensitive \
                 key. This functionality has been removed from the build system. Packages are no \
                 longer allowed to be aware of what variant they are being built for. Please remove \
                 this key from Cargo.toml"
            );
        }
        Ok(_) => panic!("sensitivity to the variant is refused"),
    }
}

#[test]
fn package_that_ignores_the_variant_passes() {
    assert!(ensure_package_is_not_variant_sensitive(&manifest(None), "Cargo.toml").is_ok());
    match build_package(&manifest(None), "Cargo.toml") {
        Ok(Build::Package { spec }) => assert_eq!(spec, "my_package.spec"),
        other => panic!("unexpected {:?}", other),
    }
}

#[test]
fn each_command_leads_to_its_build() {
    let any = manifest(None);
    assert!(matches!(run(&Command::BuildKit, &any), Ok(Build::Kit)));
    assert!(matches!(build_kit(&any), Ok(Build::Kit)));
    assert!(matches!(
        run(&Command::BuildVariant { arch: SupportedArch::X86_64 }, &any),
        Ok(Build::Variant)
    ));
    assert!(matches!(
        run(&Command::RepackVariant { arch: SupportedArch::Aarch64 }, &any),
        Ok(Build::Repack)
    ));
    assert!(matches!(
        run(&Command::BuildPackage { manifest_path: "Cargo.toml".to_string() }, &any),
        Ok(Build::Package { ref spec }) if spec == "my_package.spec"
    ));
}

#[test]
fn commands_for_a_variant_check_the_architecture() {
    let only = manifest(Some(vec![SupportedArch::X86_64]));
    assert!(matches!(build_variant(&only, SupportedArch::X86_64), Ok(Build::Variant)));
    assert!(matches!(repack_variant(&only, SupportedArch::X86_64), Ok(Build::Repack)));
    assert!(matches!(
        build_variant(&only, SupportedArch::Aarch64),
        Err(BuildError::UnsupportedArch { arch: SupportedArch::Aarch64, .. })
    ));
    assert!(matches!(
        repack_variant(&only, SupportedArch::Aarch64),
        Err(BuildError::UnsupportedArch { arch: SupportedArch::Aarch64, .. })
    ));
    assert!(matches!(
        run(&Command::RepackVariant { arch: SupportedArch::Aarch64 }, &only),
        Err(BuildError::UnsupportedArch { .. })
    ));
    assert!(matches!(run(&Command::BuildKit, &only), Ok(Build::Kit)));
}

#[test]
fn command_for_a_package_checks_its_sensitivity_and_not_its_architecture() {
    let mut sensitive = manifest(Some(vec![]));
    assert!(run(&Command::BuildPackage { manifest_path: "Cargo.toml".to_string() }, &sensitive).is_ok());
    sensitive.variant_sensitive = true;
    assert!(matches!(
        run(&Command::BuildPackage { manifest_path: "Cargo.toml".to_string() }, &sensitive),
        Err(BuildError::VariantSensitive { .. })
    ));
}

#[test]
fn architectures_have_their_names() {
    assert_eq!(SupportedArch::X86_64.to_string(), "x86_64");
    assert_eq!(SupportedArch::Aarch64.to_string(), "aarch64");
}
