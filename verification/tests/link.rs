use accel_core::link::lib_name;
use accel_core::link::link_directives;
use accel_core::link::LinkKind;
use accel_core::link::NativeLib;
use accel_core::link::TargetOs;

#[test]
fn kernel_linked_statically_on_every_os() {
    let all: [TargetOs; 4] = [TargetOs::Linux, TargetOs::MacOs, TargetOs::Windows, TargetOs::Other];
    for os in all {
        let plan = link_directives(os);
        assert!(!plan.is_empty());
        assert_eq!(plan[0].lib, NativeLib::KernelsCpu);
        assert_eq!(plan[0].kind, LinkKind::Static);
    }
}

#[test]
fn openmp_linked_only_on_linux() {
    let linux = link_directives(TargetOs::Linux);
    assert_eq!(linux.len(), 2);
    assert_eq!(linux[1].lib, NativeLib::OpenMp);
    assert_eq!(linux[1].kind, LinkKind::Dynamic);

    for os in [TargetOs::MacOs, TargetOs::Windows, TargetOs::Other] {
        let plan = link_directives(os);
        assert_eq!(plan.len(), 1);
        assert!(plan.iter().all(|d| d.lib != NativeLib::OpenMp));
    }
}

#[test]
fn linker_names_of_native_libraries() {
    assert_eq!(lib_name(NativeLib::KernelsCpu), "kernels_cpu");
    assert_eq!(lib_name(NativeLib::OpenMp), "gomp");
}
