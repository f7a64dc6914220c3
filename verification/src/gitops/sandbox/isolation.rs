//! What every container invocation has and lacks, option by option.

use super::SandboxLimits;
use crate::gitops::sandbox;
use crate::text::number;
use vstd::prelude::*;

verus! {

/// One argument of a list, and no other that sets the same option.
pub open spec fn sole_option(list: Seq<Seq<char>>, option: Seq<char>, argument: Seq<char>) -> bool {
    &&& list.contains(argument)
    &&& forall|i: int|
        0 <= i < list.len() && option.is_prefix_of(#[trigger] list[i]) ==> list[i] == argument
}

/// No argument of a list sets the option.
pub open spec fn lacks_option(list: Seq<Seq<char>>, option: Seq<char>) -> bool {
    forall|i: int| 0 <= i < list.len() ==> !option.is_prefix_of(#[trigger] list[i])
}

/// A text that differs from an option does not begin with it.
proof fn lemma_not_option(s: Seq<char>, option: Seq<char>, i: int)
    requires
        0 <= i < option.len(),
        s.len() <= i || s[i] != option[i],
    ensures
        !option.is_prefix_of(s),
{
    if option.is_prefix_of(s) {
        assert(s.subrange(0, option.len() as int)[i] == s[i]);
    }
}

proof fn lemma_option_remote(
    image: Seq<char>,
    limits: SandboxLimits,
    name: Seq<char>,
    source: Seq<char>,
)
    requires
        image.len() > 0,
        image[0] == 'g',
    ensures
        sole_option(
            sandbox::container_arguments(image, limits, name, source),
            "--remote"@,
            "--remote=false"@,
        ),
{
    let list = sandbox::container_arguments(image, limits, name, source);
    let option = "--remote"@;
    reveal_strlit("--remote");
    reveal_strlit("--cap-drop=ALL");
    reveal_strlit("--cpus=");
    reveal_strlit("--entrypoint=/usr/local/bin/validate-u9");
    reveal_strlit("--image-volume=ignore");
    reveal_strlit("--ipc=private");
    reveal_strlit("--log-driver=none");
    reveal_strlit("--memory-swap=");
    reveal_strlit("--memory=");
    reveal_strlit("--mount");
    reveal_strlit("--name=");
    reveal_strlit("--network=none");
    reveal_strlit("--pid=private");
    reveal_strlit("--pids-limit=");
    reveal_strlit("--pull=never");
    reveal_strlit("--read-only");
    reveal_strlit("--read-only-tmpfs=false");
    reveal_strlit("--rm");
    reveal_strlit("--security-opt=no-new-privileges");
    reveal_strlit("--shm-size=16m");
    reveal_strlit("--timeout=");
    reveal_strlit("--tmpfs");
    reveal_strlit("--user=65532:65532");
    reveal_strlit("--workdir=/work");
    reveal_strlit("/dev/shm:rw,nosuid,nodev,noexec,size=16m,mode=1777");
    reveal_strlit("/tmp:rw,nosuid,nodev,noexec,size=16m,mode=1777");
    reveal_strlit("/work:rw,nosuid,nodev,exec,size=");
    reveal_strlit("run");
    reveal_strlit("type=bind,src=");
    lemma_not_option(list[1], option, 0);
    lemma_not_option(list[2], option, 3);
    lemma_not_option(list[3], option, 2);
    lemma_not_option(list[4], option, 2);
    lemma_not_option(list[5], option, 2);
    lemma_not_option(list[6], option, 2);
    lemma_not_option(list[7], option, 4);
    lemma_not_option(list[8], option, 4);
    lemma_not_option(list[9], option, 2);
    lemma_not_option(list[10], option, 2);
    lemma_not_option(list[11], option, 2);
    lemma_not_option(list[12], option, 2);
    lemma_not_option(list[13], option, 2);
    lemma_not_option(list[14], option, 2);
    lemma_not_option(list[15], option, 2);
    lemma_not_option(list[16], option, 2);
    lemma_not_option(list[17], option, 2);
    lemma_not_option(list[18], option, 2);
    lemma_not_option(list[19], option, 2);
    lemma_not_option(list[20], option, 2);
    lemma_not_option(list[21], option, 2);
    lemma_not_option(list[22], option, 0);
    lemma_not_option(list[23], option, 2);
    lemma_not_option(list[24], option, 0);
    lemma_not_option(list[25], option, 2);
    lemma_not_option(list[26], option, 0);
    lemma_not_option(list[27], option, 2);
    lemma_not_option(list[28], option, 0);
    lemma_not_option(list[29], option, 2);
    lemma_not_option(list[30], option, 2);
    lemma_not_option(list[31], option, 0);
    assert(list[0] == "--remote=false"@);
}

proof fn lemma_option_rm(
    image: Seq<char>,
    limits: SandboxLimits,
    name: Seq<char>,
    source: Seq<char>,
)
    requires
        image.len() > 0,
        image[0] == 'g',
    ensures
        sole_option(
            sandbox::container_arguments(image, limits, name, source),
            "--rm"@,
            "--rm"@,
        ),
{
    let list = sandbox::container_arguments(image, limits, name, source);
    let option = "--rm"@;
    reveal_strlit("--rm");
    reveal_strlit("--cap-drop=ALL");
    reveal_strlit("--cpus=");
    reveal_strlit("--entrypoint=/usr/local/bin/validate-u9");
    reveal_strlit("--image-volume=ignore");
    reveal_strlit("--ipc=private");
    reveal_strlit("--log-driver=none");
    reveal_strlit("--memory-swap=");
    reveal_strlit("--memory=");
    reveal_strlit("--mount");
    reveal_strlit("--name=");
    reveal_strlit("--network=none");
    reveal_strlit("--pid=private");
    reveal_strlit("--pids-limit=");
    reveal_strlit("--pull=never");
    reveal_strlit("--read-only");
    reveal_strlit("--read-only-tmpfs=false");
    reveal_strlit("--remote=false");
    reveal_strlit("--security-opt=no-new-privileges");
    reveal_strlit("--shm-size=16m");
    reveal_strlit("--timeout=");
    reveal_strlit("--tmpfs");
    reveal_strlit("--user=65532:65532");
    reveal_strlit("--workdir=/work");
    reveal_strlit("/dev/shm:rw,nosuid,nodev,noexec,size=16m,mode=1777");
    reveal_strlit("/tmp:rw,nosuid,nodev,noexec,size=16m,mode=1777");
    reveal_strlit("/work:rw,nosuid,nodev,exec,size=");
    reveal_strlit("run");
    reveal_strlit("type=bind,src=");
    lemma_not_option(list[0], option, 3);
    lemma_not_option(list[1], option, 0);
    lemma_not_option(list[3], option, 2);
    lemma_not_option(list[4], option, 2);
    lemma_not_option(list[5], option, 2);
    lemma_not_option(list[6], option, 2);
    lemma_not_option(list[7], option, 3);
    lemma_not_option(list[8], option, 3);
    lemma_not_option(list[9], option, 2);
    lemma_not_option(list[10], option, 2);
    lemma_not_option(list[11], option, 2);
    lemma_not_option(list[12], option, 2);
    lemma_not_option(list[13], option, 2);
    lemma_not_option(list[14], option, 2);
    lemma_not_option(list[15], option, 2);
    lemma_not_option(list[16], option, 2);
    lemma_not_option(list[17], option, 2);
    lemma_not_option(list[18], option, 2);
    lemma_not_option(list[19], option, 2);
    lemma_not_option(list[20], option, 2);
    lemma_not_option(list[21], option, 2);
    lemma_not_option(list[22], option, 0);
    lemma_not_option(list[23], option, 2);
    lemma_not_option(list[24], option, 0);
    lemma_not_option(list[25], option, 2);
    lemma_not_option(list[26], option, 0);
    lemma_not_option(list[27], option, 2);
    lemma_not_option(list[28], option, 0);
    lemma_not_option(list[29], option, 2);
    lemma_not_option(list[30], option, 2);
    lemma_not_option(list[31], option, 0);
    assert(list[2] == "--rm"@);
}

proof fn lemma_option_name(
    image: Seq<char>,
    limits: SandboxLimits,
    name: Seq<char>,
    source: Seq<char>,
)
    requires
        image.len() > 0,
        image[0] == 'g',
    ensures
        sole_option(
            sandbox::container_arguments(image, limits, name, source),
            "--name"@,
            "--name="@ + name,
        ),
{
    let list = sandbox::container_arguments(image, limits, name, source);
    let option = "--name"@;
    reveal_strlit("--name");
    reveal_strlit("--cap-drop=ALL");
    reveal_strlit("--cpus=");
    reveal_strlit("--entrypoint=/usr/local/bin/validate-u9");
    reveal_strlit("--image-volume=ignore");
    reveal_strlit("--ipc=private");
    reveal_strlit("--log-driver=none");
    reveal_strlit("--memory-swap=");
    reveal_strlit("--memory=");
    reveal_strlit("--mount");
    reveal_strlit("--network=none");
    reveal_strlit("--pid=private");
    reveal_strlit("--pids-limit=");
    reveal_strlit("--pull=never");
    reveal_strlit("--read-only");
    reveal_strlit("--read-only-tmpfs=false");
    reveal_strlit("--remote=false");
    reveal_strlit("--rm");
    reveal_strlit("--security-opt=no-new-privileges");
    reveal_strlit("--shm-size=16m");
    reveal_strlit("--timeout=");
    reveal_strlit("--tmpfs");
    reveal_strlit("--user=65532:65532");
    reveal_strlit("--workdir=/work");
    reveal_strlit("/dev/shm:rw,nosuid,nodev,noexec,size=16m,mode=1777");
    reveal_strlit("/tmp:rw,nosuid,nodev,noexec,size=16m,mode=1777");
    reveal_strlit("/work:rw,nosuid,nodev,exec,size=");
    reveal_strlit("run");
    reveal_strlit("type=bind,src=");
    lemma_not_option(list[0], option, 2);
    lemma_not_option(list[1], option, 0);
    lemma_not_option(list[2], option, 2);
    lemma_not_option(list[4], option, 2);
    lemma_not_option(list[5], option, 2);
    lemma_not_option(list[6], option, 3);
    lemma_not_option(list[7], option, 2);
    lemma_not_option(list[8], option, 2);
    lemma_not_option(list[9], option, 2);
    lemma_not_option(list[10], option, 2);
    lemma_not_option(list[11], option, 2);
    lemma_not_option(list[12], option, 2);
    lemma_not_option(list[13], option, 2);
    lemma_not_option(list[14], option, 2);
    lemma_not_option(list[15], option, 2);
    lemma_not_option(list[16], option, 2);
    lemma_not_option(list[17], option, 2);
    lemma_not_option(list[18], option, 2);
    lemma_not_option(list[19], option, 2);
    lemma_not_option(list[20], option, 2);
    lemma_not_option(list[21], option, 2);
    lemma_not_option(list[22], option, 0);
    lemma_not_option(list[23], option, 2);
    lemma_not_option(list[24], option, 0);
    lemma_not_option(list[25], option, 2);
    lemma_not_option(list[26], option, 0);
    lemma_not_option(list[27], option, 2);
    lemma_not_option(list[28], option, 0);
    lemma_not_option(list[29], option, 2);
    lemma_not_option(list[30], option, 2);
    lemma_not_option(list[31], option, 0);
    assert(list[3] == "--name="@ + name);
}

proof fn lemma_option_pull(
    image: Seq<char>,
    limits: SandboxLimits,
    name: Seq<char>,
    source: Seq<char>,
)
    requires
        image.len() > 0,
        image[0] == 'g',
    ensures
        sole_option(
            sandbox::container_arguments(image, limits, name, source),
            "--pull"@,
            "--pull=never"@,
        ),
{
    let list = sandbox::container_arguments(image, limits, name, source);
    let option = "--pull"@;
    reveal_strlit("--pull");
    reveal_strlit("--cap-drop=ALL");
    reveal_strlit("--cpus=");
    reveal_strlit("--entrypoint=/usr/local/bin/validate-u9");
    reveal_strlit("--image-volume=ignore");
    reveal_strlit("--ipc=private");
    reveal_strlit("--log-driver=none");
    reveal_strlit("--memory-swap=");
    reveal_strlit("--memory=");
    reveal_strlit("--mount");
    reveal_strlit("--name=");
    reveal_strlit("--network=none");
    reveal_strlit("--pid=private");
    reveal_strlit("--pids-limit=");
    reveal_strlit("--read-only");
    reveal_strlit("--read-only-tmpfs=false");
    reveal_strlit("--remote=false");
    reveal_strlit("--rm");
    reveal_strlit("--security-opt=no-new-privileges");
    reveal_strlit("--shm-size=16m");
    reveal_strlit("--timeout=");
    reveal_strlit("--tmpfs");
    reveal_strlit("--user=65532:65532");
    reveal_strlit("--workdir=/work");
    reveal_strlit("/dev/shm:rw,nosuid,nodev,noexec,size=16m,mode=1777");
    reveal_strlit("/tmp:rw,nosuid,nodev,noexec,size=16m,mode=1777");
    reveal_strlit("/work:rw,nosuid,nodev,exec,size=");
    reveal_strlit("run");
    reveal_strlit("type=bind,src=");
    lemma_not_option(list[0], option, 2);
    lemma_not_option(list[1], option, 0);
    lemma_not_option(list[2], option, 2);
    lemma_not_option(list[3], option, 2);
    lemma_not_option(list[5], option, 2);
    lemma_not_option(list[6], option, 2);
    lemma_not_option(list[7], option, 2);
    lemma_not_option(list[8], option, 2);
    lemma_not_option(list[9], option, 2);
    lemma_not_option(list[10], option, 2);
    lemma_not_option(list[11], option, 2);
    lemma_not_option(list[12], option, 3);
    lemma_not_option(list[13], option, 2);
    lemma_not_option(list[14], option, 2);
    lemma_not_option(list[15], option, 2);
    lemma_not_option(list[16], option, 2);
    lemma_not_option(list[17], option, 2);
    lemma_not_option(list[18], option, 2);
    lemma_not_option(list[19], option, 3);
    lemma_not_option(list[20], option, 2);
    lemma_not_option(list[21], option, 2);
    lemma_not_option(list[22], option, 0);
    lemma_not_option(list[23], option, 2);
    lemma_not_option(list[24], option, 0);
    lemma_not_option(list[25], option, 2);
    lemma_not_option(list[26], option, 0);
    lemma_not_option(list[27], option, 2);
    lemma_not_option(list[28], option, 0);
    lemma_not_option(list[29], option, 2);
    lemma_not_option(list[30], option, 2);
    lemma_not_option(list[31], option, 0);
    assert(list[4] == "--pull=never"@);
}

proof fn lemma_option_image_volume(
    image: Seq<char>,
    limits: SandboxLimits,
    name: Seq<char>,
    source: Seq<char>,
)
    requires
        image.len() > 0,
        image[0] == 'g',
    ensures
        sole_option(
            sandbox::container_arguments(image, limits, name, source),
            "--image-volume"@,
            "--image-volume=ignore"@,
        ),
{
    let list = sandbox::container_arguments(image, limits, name, source);
    let option = "--image-volume"@;
    reveal_strlit("--image-volume");
    reveal_strlit("--cap-drop=ALL");
    reveal_strlit("--cpus=");
    reveal_strlit("--entrypoint=/usr/local/bin/validate-u9");
    reveal_strlit("--ipc=private");
    reveal_strlit("--log-driver=none");
    reveal_strlit("--memory-swap=");
    reveal_strlit("--memory=");
    reveal_strlit("--mount");
    reveal_strlit("--name=");
    reveal_strlit("--network=none");
    reveal_strlit("--pid=private");
    reveal_strlit("--pids-limit=");
    reveal_strlit("--pull=never");
    reveal_strlit("--read-only");
    reveal_strlit("--read-only-tmpfs=false");
    reveal_strlit("--remote=false");
    reveal_strlit("--rm");
    reveal_strlit("--security-opt=no-new-privileges");
    reveal_strlit("--shm-size=16m");
    reveal_strlit("--timeout=");
    reveal_strlit("--tmpfs");
    reveal_strlit("--user=65532:65532");
    reveal_strlit("--workdir=/work");
    reveal_strlit("/dev/shm:rw,nosuid,nodev,noexec,size=16m,mode=1777");
    reveal_strlit("/tmp:rw,nosuid,nodev,noexec,size=16m,mode=1777");
    reveal_strlit("/work:rw,nosuid,nodev,exec,size=");
    reveal_strlit("run");
    reveal_strlit("type=bind,src=");
    lemma_not_option(list[0], option, 2);
    lemma_not_option(list[1], option, 0);
    lemma_not_option(list[2], option, 2);
    lemma_not_option(list[3], option, 2);
    lemma_not_option(list[4], option, 2);
    lemma_not_option(list[6], option, 2);
    lemma_not_option(list[7], option, 2);
    lemma_not_option(list[8], option, 2);
    lemma_not_option(list[9], option, 2);
    lemma_not_option(list[10], option, 2);
    lemma_not_option(list[11], option, 2);
    lemma_not_option(list[12], option, 2);
    lemma_not_option(list[13], option, 3);
    lemma_not_option(list[14], option, 2);
    lemma_not_option(list[15], option, 2);
    lemma_not_option(list[16], option, 2);
    lemma_not_option(list[17], option, 2);
    lemma_not_option(list[18], option, 2);
    lemma_not_option(list[19], option, 2);
    lemma_not_option(list[20], option, 2);
    lemma_not_option(list[21], option, 2);
    lemma_not_option(list[22], option, 0);
    lemma_not_option(list[23], option, 2);
    lemma_not_option(list[24], option, 0);
    lemma_not_option(list[25], option, 2);
    lemma_not_option(list[26], option, 0);
    lemma_not_option(list[27], option, 2);
    lemma_not_option(list[28], option, 0);
    lemma_not_option(list[29], option, 2);
    lemma_not_option(list[30], option, 2);
    lemma_not_option(list[31], option, 0);
    assert(list[5] == "--image-volume=ignore"@);
}

proof fn lemma_option_network(
    image: Seq<char>,
    limits: SandboxLimits,
    name: Seq<char>,
    source: Seq<char>,
)
    requires
        image.len() > 0,
        image[0] == 'g',
    ensures
        sole_option(
            sandbox::container_arguments(image, limits, name, source),
            "--network"@,
            "--network=none"@,
        ),
{
    let list = sandbox::container_arguments(image, limits, name, source);
    let option = "--network"@;
    reveal_strlit("--network");
    reveal_strlit("--cap-drop=ALL");
    reveal_strlit("--cpus=");
    reveal_strlit("--entrypoint=/usr/local/bin/validate-u9");
    reveal_strlit("--image-volume=ignore");
    reveal_strlit("--ipc=private");
    reveal_strlit("--log-driver=none");
    reveal_strlit("--memory-swap=");
    reveal_strlit("--memory=");
    reveal_strlit("--mount");
    reveal_strlit("--name=");
    reveal_strlit("--pid=private");
    reveal_strlit("--pids-limit=");
    reveal_strlit("--pull=never");
    reveal_strlit("--read-only");
    reveal_strlit("--read-only-tmpfs=false");
    reveal_strlit("--remote=false");
    reveal_strlit("--rm");
    reveal_strlit("--security-opt=no-new-privileges");
    reveal_strlit("--shm-size=16m");
    reveal_strlit("--timeout=");
    reveal_strlit("--tmpfs");
    reveal_strlit("--user=65532:65532");
    reveal_strlit("--workdir=/work");
    reveal_strlit("/dev/shm:rw,nosuid,nodev,noexec,size=16m,mode=1777");
    reveal_strlit("/tmp:rw,nosuid,nodev,noexec,size=16m,mode=1777");
    reveal_strlit("/work:rw,nosuid,nodev,exec,size=");
    reveal_strlit("run");
    reveal_strlit("type=bind,src=");
    lemma_not_option(list[0], option, 2);
    lemma_not_option(list[1], option, 0);
    lemma_not_option(list[2], option, 2);
    lemma_not_option(list[3], option, 3);
    lemma_not_option(list[4], option, 2);
    lemma_not_option(list[5], option, 2);
    lemma_not_option(list[7], option, 2);
    lemma_not_option(list[8], option, 2);
    lemma_not_option(list[9], option, 2);
    lemma_not_option(list[10], option, 2);
    lemma_not_option(list[11], option, 2);
    lemma_not_option(list[12], option, 2);
    lemma_not_option(list[13], option, 2);
    lemma_not_option(list[14], option, 2);
    lemma_not_option(list[15], option, 2);
    lemma_not_option(list[16], option, 2);
    lemma_not_option(list[17], option, 2);
    lemma_not_option(list[18], option, 2);
    lemma_not_option(list[19], option, 2);
    lemma_not_option(list[20], option, 2);
    lemma_not_option(list[21], option, 2);
    lemma_not_option(list[22], option, 0);
    lemma_not_option(list[23], option, 2);
    lemma_not_option(list[24], option, 0);
    lemma_not_option(list[25], option, 2);
    lemma_not_option(list[26], option, 0);
    lemma_not_option(list[27], option, 2);
    lemma_not_option(list[28], option, 0);
    lemma_not_option(list[29], option, 2);
    lemma_not_option(list[30], option, 2);
    lemma_not_option(list[31], option, 0);
    assert(list[6] == "--network=none"@);
}

proof fn lemma_option_read_only_tmpfs(
    image: Seq<char>,
    limits: SandboxLimits,
    name: Seq<char>,
    source: Seq<char>,
)
    requires
        image.len() > 0,
        image[0] == 'g',
    ensures
        sole_option(
            sandbox::container_arguments(image, limits, name, source),
            "--read-only-tmpfs"@,
            "--read-only-tmpfs=false"@,
        ),
{
    let list = sandbox::container_arguments(image, limits, name, source);
    let option = "--read-only-tmpfs"@;
    reveal_strlit("--read-only-tmpfs");
    reveal_strlit("--cap-drop=ALL");
    reveal_strlit("--cpus=");
    reveal_strlit("--entrypoint=/usr/local/bin/validate-u9");
    reveal_strlit("--image-volume=ignore");
    reveal_strlit("--ipc=private");
    reveal_strlit("--log-driver=none");
    reveal_strlit("--memory-swap=");
    reveal_strlit("--memory=");
    reveal_strlit("--mount");
    reveal_strlit("--name=");
    reveal_strlit("--network=none");
    reveal_strlit("--pid=private");
    reveal_strlit("--pids-limit=");
    reveal_strlit("--pull=never");
    reveal_strlit("--read-only");
    reveal_strlit("--remote=false");
    reveal_strlit("--rm");
    reveal_strlit("--security-opt=no-new-privileges");
    reveal_strlit("--shm-size=16m");
    reveal_strlit("--timeout=");
    reveal_strlit("--tmpfs");
    reveal_strlit("--user=65532:65532");
    reveal_strlit("--workdir=/work");
    reveal_strlit("/dev/shm:rw,nosuid,nodev,noexec,size=16m,mode=1777");
    reveal_strlit("/tmp:rw,nosuid,nodev,noexec,size=16m,mode=1777");
    reveal_strlit("/work:rw,nosuid,nodev,exec,size=");
    reveal_strlit("run");
    reveal_strlit("type=bind,src=");
    lemma_not_option(list[0], option, 4);
    lemma_not_option(list[1], option, 0);
    lemma_not_option(list[2], option, 3);
    lemma_not_option(list[3], option, 2);
    lemma_not_option(list[4], option, 2);
    lemma_not_option(list[5], option, 2);
    lemma_not_option(list[6], option, 2);
    lemma_not_option(list[7], option, 11);
    lemma_not_option(list[9], option, 2);
    lemma_not_option(list[10], option, 2);
    lemma_not_option(list[11], option, 2);
    lemma_not_option(list[12], option, 2);
    lemma_not_option(list[13], option, 2);
    lemma_not_option(list[14], option, 2);
    lemma_not_option(list[15], option, 2);
    lemma_not_option(list[16], option, 2);
    lemma_not_option(list[17], option, 2);
    lemma_not_option(list[18], option, 2);
    lemma_not_option(list[19], option, 2);
    lemma_not_option(list[20], option, 2);
    lemma_not_option(list[21], option, 2);
    lemma_not_option(list[22], option, 0);
    lemma_not_option(list[23], option, 2);
    lemma_not_option(list[24], option, 0);
    lemma_not_option(list[25], option, 2);
    lemma_not_option(list[26], option, 0);
    lemma_not_option(list[27], option, 2);
    lemma_not_option(list[28], option, 0);
    lemma_not_option(list[29], option, 2);
    lemma_not_option(list[30], option, 2);
    lemma_not_option(list[31], option, 0);
    assert(list[8] == "--read-only-tmpfs=false"@);
}

proof fn lemma_option_cap_drop(
    image: Seq<char>,
    limits: SandboxLimits,
    name: Seq<char>,
    source: Seq<char>,
)
    requires
        image.len() > 0,
        image[0] == 'g',
    ensures
        sole_option(
            sandbox::container_arguments(image, limits, name, source),
            "--cap-drop"@,
            "--cap-drop=ALL"@,
        ),
{
    let list = sandbox::container_arguments(image, limits, name, source);
    let option = "--cap-drop"@;
    reveal_strlit("--cap-drop");
    reveal_strlit("--cpus=");
    reveal_strlit("--entrypoint=/usr/local/bin/validate-u9");
    reveal_strlit("--image-volume=ignore");
    reveal_strlit("--ipc=private");
    reveal_strlit("--log-driver=none");
    reveal_strlit("--memory-swap=");
    reveal_strlit("--memory=");
    reveal_strlit("--mount");
    reveal_strlit("--name=");
    reveal_strlit("--network=none");
    reveal_strlit("--pid=private");
    reveal_strlit("--pids-limit=");
    reveal_strlit("--pull=never");
    reveal_strlit("--read-only");
    reveal_strlit("--read-only-tmpfs=false");
    reveal_strlit("--remote=false");
    reveal_strlit("--rm");
    reveal_strlit("--security-opt=no-new-privileges");
    reveal_strlit("--shm-size=16m");
    reveal_strlit("--timeout=");
    reveal_strlit("--tmpfs");
    reveal_strlit("--user=65532:65532");
    reveal_strlit("--workdir=/work");
    reveal_strlit("/dev/shm:rw,nosuid,nodev,noexec,size=16m,mode=1777");
    reveal_strlit("/tmp:rw,nosuid,nodev,noexec,size=16m,mode=1777");
    reveal_strlit("/work:rw,nosuid,nodev,exec,size=");
    reveal_strlit("run");
    reveal_strlit("type=bind,src=");
    lemma_not_option(list[0], option, 2);
    lemma_not_option(list[1], option, 0);
    lemma_not_option(list[2], option, 2);
    lemma_not_option(list[3], option, 2);
    lemma_not_option(list[4], option, 2);
    lemma_not_option(list[5], option, 2);
    lemma_not_option(list[6], option, 2);
    lemma_not_option(list[7], option, 2);
    lemma_not_option(list[8], option, 2);
    lemma_not_option(list[10], option, 2);
    lemma_not_option(list[11], option, 2);
    lemma_not_option(list[12], option, 2);
    lemma_not_option(list[13], option, 2);
    lemma_not_option(list[14], option, 2);
    lemma_not_option(list[15], option, 2);
    lemma_not_option(list[16], option, 2);
    lemma_not_option(list[17], option, 2);
    lemma_not_option(list[18], option, 3);
    lemma_not_option(list[19], option, 2);
    lemma_not_option(list[20], option, 2);
    lemma_not_option(list[21], option, 2);
    lemma_not_option(list[22], option, 0);
    lemma_not_option(list[23], option, 2);
    lemma_not_option(list[24], option, 0);
    lemma_not_option(list[25], option, 2);
    lemma_not_option(list[26], option, 0);
    lemma_not_option(list[27], option, 2);
    lemma_not_option(list[28], option, 0);
    lemma_not_option(list[29], option, 2);
    lemma_not_option(list[30], option, 2);
    lemma_not_option(list[31], option, 0);
    assert(list[9] == "--cap-drop=ALL"@);
}

proof fn lemma_option_security_opt(
    image: Seq<char>,
    limits: SandboxLimits,
    name: Seq<char>,
    source: Seq<char>,
)
    requires
        image.len() > 0,
        image[0] == 'g',
    ensures
        sole_option(
            sandbox::container_arguments(image, limits, name, source),
            "--security-opt"@,
            "--security-opt=no-new-privileges"@,
        ),
{
    let list = sandbox::container_arguments(image, limits, name, source);
    let option = "--security-opt"@;
    reveal_strlit("--security-opt");
    reveal_strlit("--cap-drop=ALL");
    reveal_strlit("--cpus=");
    reveal_strlit("--entrypoint=/usr/local/bin/validate-u9");
    reveal_strlit("--image-volume=ignore");
    reveal_strlit("--ipc=private");
    reveal_strlit("--log-driver=none");
    reveal_strlit("--memory-swap=");
    reveal_strlit("--memory=");
    reveal_strlit("--mount");
    reveal_strlit("--name=");
    reveal_strlit("--network=none");
    reveal_strlit("--pid=private");
    reveal_strlit("--pids-limit=");
    reveal_strlit("--pull=never");
    reveal_strlit("--read-only");
    reveal_strlit("--read-only-tmpfs=false");
    reveal_strlit("--remote=false");
    reveal_strlit("--rm");
    reveal_strlit("--shm-size=16m");
    reveal_strlit("--timeout=");
    reveal_strlit("--tmpfs");
    reveal_strlit("--user=65532:65532");
    reveal_strlit("--workdir=/work");
    reveal_strlit("/dev/shm:rw,nosuid,nodev,noexec,size=16m,mode=1777");
    reveal_strlit("/tmp:rw,nosuid,nodev,noexec,size=16m,mode=1777");
    reveal_strlit("/work:rw,nosuid,nodev,exec,size=");
    reveal_strlit("run");
    reveal_strlit("type=bind,src=");
    lemma_not_option(list[0], option, 2);
    lemma_not_option(list[1], option, 0);
    lemma_not_option(list[2], option, 2);
    lemma_not_option(list[3], option, 2);
    lemma_not_option(list[4], option, 2);
    lemma_not_option(list[5], option, 2);
    lemma_not_option(list[6], option, 2);
    lemma_not_option(list[7], option, 2);
    lemma_not_option(list[8], option, 2);
    lemma_not_option(list[9], option, 2);
    lemma_not_option(list[11], option, 2);
    lemma_not_option(list[12], option, 2);
    lemma_not_option(list[13], option, 2);
    lemma_not_option(list[14], option, 2);
    lemma_not_option(list[15], option, 2);
    lemma_not_option(list[16], option, 2);
    lemma_not_option(list[17], option, 2);
    lemma_not_option(list[18], option, 2);
    lemma_not_option(list[19], option, 2);
    lemma_not_option(list[20], option, 3);
    lemma_not_option(list[21], option, 2);
    lemma_not_option(list[22], option, 0);
    lemma_not_option(list[23], option, 2);
    lemma_not_option(list[24], option, 0);
    lemma_not_option(list[25], option, 2);
    lemma_not_option(list[26], option, 0);
    lemma_not_option(list[27], option, 2);
    lemma_not_option(list[28], option, 0);
    lemma_not_option(list[29], option, 2);
    lemma_not_option(list[30], option, 2);
    lemma_not_option(list[31], option, 0);
    assert(list[10] == "--security-opt=no-new-privileges"@);
}

proof fn lemma_option_user(
    image: Seq<char>,
    limits: SandboxLimits,
    name: Seq<char>,
    source: Seq<char>,
)
    requires
        image.len() > 0,
        image[0] == 'g',
    ensures
        sole_option(
            sandbox::container_arguments(image, limits, name, source),
            "--user"@,
            "--user=65532:65532"@,
        ),
{
    let list = sandbox::container_arguments(image, limits, name, source);
    let option = "--user"@;
    reveal_strlit("--user");
    reveal_strlit("--cap-drop=ALL");
    reveal_strlit("--cpus=");
    reveal_strlit("--entrypoint=/usr/local/bin/validate-u9");
    reveal_strlit("--image-volume=ignore");
    reveal_strlit("--ipc=private");
    reveal_strlit("--log-driver=none");
    reveal_strlit("--memory-swap=");
    reveal_strlit("--memory=");
    reveal_strlit("--mount");
    reveal_strlit("--name=");
    reveal_strlit("--network=none");
    reveal_strlit("--pid=private");
    reveal_strlit("--pids-limit=");
    reveal_strlit("--pull=never");
    reveal_strlit("--read-only");
    reveal_strlit("--read-only-tmpfs=false");
    reveal_strlit("--remote=false");
    reveal_strlit("--rm");
    reveal_strlit("--security-opt=no-new-privileges");
    reveal_strlit("--shm-size=16m");
    reveal_strlit("--timeout=");
    reveal_strlit("--tmpfs");
    reveal_strlit("--workdir=/work");
    reveal_strlit("/dev/shm:rw,nosuid,nodev,noexec,size=16m,mode=1777");
    reveal_strlit("/tmp:rw,nosuid,nodev,noexec,size=16m,mode=1777");
    reveal_strlit("/work:rw,nosuid,nodev,exec,size=");
    reveal_strlit("run");
    reveal_strlit("type=bind,src=");
    lemma_not_option(list[0], option, 2);
    lemma_not_option(list[1], option, 0);
    lemma_not_option(list[2], option, 2);
    lemma_not_option(list[3], option, 2);
    lemma_not_option(list[4], option, 2);
    lemma_not_option(list[5], option, 2);
    lemma_not_option(list[6], option, 2);
    lemma_not_option(list[7], option, 2);
    lemma_not_option(list[8], option, 2);
    lemma_not_option(list[9], option, 2);
    lemma_not_option(list[10], option, 2);
    lemma_not_option(list[12], option, 2);
    lemma_not_option(list[13], option, 2);
    lemma_not_option(list[14], option, 2);
    lemma_not_option(list[15], option, 2);
    lemma_not_option(list[16], option, 2);
    lemma_not_option(list[17], option, 2);
    lemma_not_option(list[18], option, 2);
    lemma_not_option(list[19], option, 2);
    lemma_not_option(list[20], option, 2);
    lemma_not_option(list[21], option, 2);
    lemma_not_option(list[22], option, 0);
    lemma_not_option(list[23], option, 2);
    lemma_not_option(list[24], option, 0);
    lemma_not_option(list[25], option, 2);
    lemma_not_option(list[26], option, 0);
    lemma_not_option(list[27], option, 2);
    lemma_not_option(list[28], option, 0);
    lemma_not_option(list[29], option, 2);
    lemma_not_option(list[30], option, 2);
    lemma_not_option(list[31], option, 0);
    assert(list[11] == "--user=65532:65532"@);
}

proof fn lemma_option_pid(
    image: Seq<char>,
    limits: SandboxLimits,
    name: Seq<char>,
    source: Seq<char>,
)
    requires
        image.len() > 0,
        image[0] == 'g',
    ensures
        sole_option(
            sandbox::container_arguments(image, limits, name, source),
            "--pid="@,
            "--pid=private"@,
        ),
{
    let list = sandbox::container_arguments(image, limits, name, source);
    let option = "--pid="@;
    reveal_strlit("--pid=");
    reveal_strlit("--cap-drop=ALL");
    reveal_strlit("--cpus=");
    reveal_strlit("--entrypoint=/usr/local/bin/validate-u9");
    reveal_strlit("--image-volume=ignore");
    reveal_strlit("--ipc=private");
    reveal_strlit("--log-driver=none");
    reveal_strlit("--memory-swap=");
    reveal_strlit("--memory=");
    reveal_strlit("--mount");
    reveal_strlit("--name=");
    reveal_strlit("--network=none");
    reveal_strlit("--pids-limit=");
    reveal_strlit("--pull=never");
    reveal_strlit("--read-only");
    reveal_strlit("--read-only-tmpfs=false");
    reveal_strlit("--remote=false");
    reveal_strlit("--rm");
    reveal_strlit("--security-opt=no-new-privileges");
    reveal_strlit("--shm-size=16m");
    reveal_strlit("--timeout=");
    reveal_strlit("--tmpfs");
    reveal_strlit("--user=65532:65532");
    reveal_strlit("--workdir=/work");
    reveal_strlit("/dev/shm:rw,nosuid,nodev,noexec,size=16m,mode=1777");
    reveal_strlit("/tmp:rw,nosuid,nodev,noexec,size=16m,mode=1777");
    reveal_strlit("/work:rw,nosuid,nodev,exec,size=");
    reveal_strlit("run");
    reveal_strlit("type=bind,src=");
    lemma_not_option(list[0], option, 2);
    lemma_not_option(list[1], option, 0);
    lemma_not_option(list[2], option, 2);
    lemma_not_option(list[3], option, 2);
    lemma_not_option(list[4], option, 3);
    lemma_not_option(list[5], option, 2);
    lemma_not_option(list[6], option, 2);
    lemma_not_option(list[7], option, 2);
    lemma_not_option(list[8], option, 2);
    lemma_not_option(list[9], option, 2);
    lemma_not_option(list[10], option, 2);
    lemma_not_option(list[11], option, 2);
    lemma_not_option(list[13], option, 2);
    lemma_not_option(list[14], option, 2);
    lemma_not_option(list[15], option, 2);
    lemma_not_option(list[16], option, 2);
    lemma_not_option(list[17], option, 2);
    lemma_not_option(list[18], option, 2);
    lemma_not_option(list[19], option, 5);
    lemma_not_option(list[20], option, 2);
    lemma_not_option(list[21], option, 2);
    lemma_not_option(list[22], option, 0);
    lemma_not_option(list[23], option, 2);
    lemma_not_option(list[24], option, 0);
    lemma_not_option(list[25], option, 2);
    lemma_not_option(list[26], option, 0);
    lemma_not_option(list[27], option, 2);
    lemma_not_option(list[28], option, 0);
    lemma_not_option(list[29], option, 2);
    lemma_not_option(list[30], option, 2);
    lemma_not_option(list[31], option, 0);
    assert(list[12] == "--pid=private"@);
}

proof fn lemma_option_ipc(
    image: Seq<char>,
    limits: SandboxLimits,
    name: Seq<char>,
    source: Seq<char>,
)
    requires
        image.len() > 0,
        image[0] == 'g',
    ensures
        sole_option(
            sandbox::container_arguments(image, limits, name, source),
            "--ipc"@,
            "--ipc=private"@,
        ),
{
    let list = sandbox::container_arguments(image, limits, name, source);
    let option = "--ipc"@;
    reveal_strlit("--ipc");
    reveal_strlit("--cap-drop=ALL");
    reveal_strlit("--cpus=");
    reveal_strlit("--entrypoint=/usr/local/bin/validate-u9");
    reveal_strlit("--image-volume=ignore");
    reveal_strlit("--log-driver=none");
    reveal_strlit("--memory-swap=");
    reveal_strlit("--memory=");
    reveal_strlit("--mount");
    reveal_strlit("--name=");
    reveal_strlit("--network=none");
    reveal_strlit("--pid=private");
    reveal_strlit("--pids-limit=");
    reveal_strlit("--pull=never");
    reveal_strlit("--read-only");
    reveal_strlit("--read-only-tmpfs=false");
    reveal_strlit("--remote=false");
    reveal_strlit("--rm");
    reveal_strlit("--security-opt=no-new-privileges");
    reveal_strlit("--shm-size=16m");
    reveal_strlit("--timeout=");
    reveal_strlit("--tmpfs");
    reveal_strlit("--user=65532:65532");
    reveal_strlit("--workdir=/work");
    reveal_strlit("/dev/shm:rw,nosuid,nodev,noexec,size=16m,mode=1777");
    reveal_strlit("/tmp:rw,nosuid,nodev,noexec,size=16m,mode=1777");
    reveal_strlit("/work:rw,nosuid,nodev,exec,size=");
    reveal_strlit("run");
    reveal_strlit("type=bind,src=");
    lemma_not_option(list[0], option, 2);
    lemma_not_option(list[1], option, 0);
    lemma_not_option(list[2], option, 2);
    lemma_not_option(list[3], option, 2);
    lemma_not_option(list[4], option, 2);
    lemma_not_option(list[5], option, 3);
    lemma_not_option(list[6], option, 2);
    lemma_not_option(list[7], option, 2);
    lemma_not_option(list[8], option, 2);
    lemma_not_option(list[9], option, 2);
    lemma_not_option(list[10], option, 2);
    lemma_not_option(list[11], option, 2);
    lemma_not_option(list[12], option, 2);
    lemma_not_option(list[14], option, 2);
    lemma_not_option(list[15], option, 2);
    lemma_not_option(list[16], option, 2);
    lemma_not_option(list[17], option, 2);
    lemma_not_option(list[18], option, 2);
    lemma_not_option(list[19], option, 2);
    lemma_not_option(list[20], option, 2);
    lemma_not_option(list[21], option, 2);
    lemma_not_option(list[22], option, 0);
    lemma_not_option(list[23], option, 2);
    lemma_not_option(list[24], option, 0);
    lemma_not_option(list[25], option, 2);
    lemma_not_option(list[26], option, 0);
    lemma_not_option(list[27], option, 2);
    lemma_not_option(list[28], option, 0);
    lemma_not_option(list[29], option, 2);
    lemma_not_option(list[30], option, 2);
    lemma_not_option(list[31], option, 0);
    assert(list[13] == "--ipc=private"@);
}

proof fn lemma_option_log_driver(
    image: Seq<char>,
    limits: SandboxLimits,
    name: Seq<char>,
    source: Seq<char>,
)
    requires
        image.len() > 0,
        image[0] == 'g',
    ensures
        sole_option(
            sandbox::container_arguments(image, limits, name, source),
            "--log-driver"@,
            "--log-driver=none"@,
        ),
{
    let list = sandbox::container_arguments(image, limits, name, source);
    let option = "--log-driver"@;
    reveal_strlit("--log-driver");
    reveal_strlit("--cap-drop=ALL");
    reveal_strlit("--cpus=");
    reveal_strlit("--entrypoint=/usr/local/bin/validate-u9");
    reveal_strlit("--image-volume=ignore");
    reveal_strlit("--ipc=private");
    reveal_strlit("--memory-swap=");
    reveal_strlit("--memory=");
    reveal_strlit("--mount");
    reveal_strlit("--name=");
    reveal_strlit("--network=none");
    reveal_strlit("--pid=private");
    reveal_strlit("--pids-limit=");
    reveal_strlit("--pull=never");
    reveal_strlit("--read-only");
    reveal_strlit("--read-only-tmpfs=false");
    reveal_strlit("--remote=false");
    reveal_strlit("--rm");
    reveal_strlit("--security-opt=no-new-privileges");
    reveal_strlit("--shm-size=16m");
    reveal_strlit("--timeout=");
    reveal_strlit("--tmpfs");
    reveal_strlit("--user=65532:65532");
    reveal_strlit("--workdir=/work");
    reveal_strlit("/dev/shm:rw,nosuid,nodev,noexec,size=16m,mode=1777");
    reveal_strlit("/tmp:rw,nosuid,nodev,noexec,size=16m,mode=1777");
    reveal_strlit("/work:rw,nosuid,nodev,exec,size=");
    reveal_strlit("run");
    reveal_strlit("type=bind,src=");
    lemma_not_option(list[0], option, 2);
    lemma_not_option(list[1], option, 0);
    lemma_not_option(list[2], option, 2);
    lemma_not_option(list[3], option, 2);
    lemma_not_option(list[4], option, 2);
    lemma_not_option(list[5], option, 2);
    lemma_not_option(list[6], option, 2);
    lemma_not_option(list[7], option, 2);
    lemma_not_option(list[8], option, 2);
    lemma_not_option(list[9], option, 2);
    lemma_not_option(list[10], option, 2);
    lemma_not_option(list[11], option, 2);
    lemma_not_option(list[12], option, 2);
    lemma_not_option(list[13], option, 2);
    lemma_not_option(list[15], option, 2);
    lemma_not_option(list[16], option, 2);
    lemma_not_option(list[17], option, 2);
    lemma_not_option(list[18], option, 2);
    lemma_not_option(list[19], option, 2);
    lemma_not_option(list[20], option, 2);
    lemma_not_option(list[21], option, 2);
    lemma_not_option(list[22], option, 0);
    lemma_not_option(list[23], option, 2);
    lemma_not_option(list[24], option, 0);
    lemma_not_option(list[25], option, 2);
    lemma_not_option(list[26], option, 0);
    lemma_not_option(list[27], option, 2);
    lemma_not_option(list[28], option, 0);
    lemma_not_option(list[29], option, 2);
    lemma_not_option(list[30], option, 2);
    lemma_not_option(list[31], option, 0);
    assert(list[14] == "--log-driver=none"@);
}

proof fn lemma_option_timeout(
    image: Seq<char>,
    limits: SandboxLimits,
    name: Seq<char>,
    source: Seq<char>,
)
    requires
        image.len() > 0,
        image[0] == 'g',
    ensures
        sole_option(
            sandbox::container_arguments(image, limits, name, source),
            "--timeout"@,
            "--timeout="@ + number::decimal(limits.timeout_seconds as nat),
        ),
{
    let list = sandbox::container_arguments(image, limits, name, source);
    let option = "--timeout"@;
    reveal_strlit("--timeout");
    reveal_strlit("--cap-drop=ALL");
    reveal_strlit("--cpus=");
    reveal_strlit("--entrypoint=/usr/local/bin/validate-u9");
    reveal_strlit("--image-volume=ignore");
    reveal_strlit("--ipc=private");
    reveal_strlit("--log-driver=none");
    reveal_strlit("--memory-swap=");
    reveal_strlit("--memory=");
    reveal_strlit("--mount");
    reveal_strlit("--name=");
    reveal_strlit("--network=none");
    reveal_strlit("--pid=private");
    reveal_strlit("--pids-limit=");
    reveal_strlit("--pull=never");
    reveal_strlit("--read-only");
    reveal_strlit("--read-only-tmpfs=false");
    reveal_strlit("--remote=false");
    reveal_strlit("--rm");
    reveal_strlit("--security-opt=no-new-privileges");
    reveal_strlit("--shm-size=16m");
    reveal_strlit("--tmpfs");
    reveal_strlit("--user=65532:65532");
    reveal_strlit("--workdir=/work");
    reveal_strlit("/dev/shm:rw,nosuid,nodev,noexec,size=16m,mode=1777");
    reveal_strlit("/tmp:rw,nosuid,nodev,noexec,size=16m,mode=1777");
    reveal_strlit("/work:rw,nosuid,nodev,exec,size=");
    reveal_strlit("run");
    reveal_strlit("type=bind,src=");
    lemma_not_option(list[0], option, 2);
    lemma_not_option(list[1], option, 0);
    lemma_not_option(list[2], option, 2);
    lemma_not_option(list[3], option, 2);
    lemma_not_option(list[4], option, 2);
    lemma_not_option(list[5], option, 2);
    lemma_not_option(list[6], option, 2);
    lemma_not_option(list[7], option, 2);
    lemma_not_option(list[8], option, 2);
    lemma_not_option(list[9], option, 2);
    lemma_not_option(list[10], option, 2);
    lemma_not_option(list[11], option, 2);
    lemma_not_option(list[12], option, 2);
    lemma_not_option(list[13], option, 2);
    lemma_not_option(list[14], option, 2);
    lemma_not_option(list[16], option, 2);
    lemma_not_option(list[17], option, 2);
    lemma_not_option(list[18], option, 2);
    lemma_not_option(list[19], option, 2);
    lemma_not_option(list[20], option, 2);
    lemma_not_option(list[21], option, 3);
    lemma_not_option(list[22], option, 0);
    lemma_not_option(list[23], option, 3);
    lemma_not_option(list[24], option, 0);
    lemma_not_option(list[25], option, 3);
    lemma_not_option(list[26], option, 0);
    lemma_not_option(list[27], option, 2);
    lemma_not_option(list[28], option, 0);
    lemma_not_option(list[29], option, 2);
    lemma_not_option(list[30], option, 2);
    lemma_not_option(list[31], option, 0);
    assert(list[15] == "--timeout="@ + number::decimal(limits.timeout_seconds as nat));
}

proof fn lemma_option_memory(
    image: Seq<char>,
    limits: SandboxLimits,
    name: Seq<char>,
    source: Seq<char>,
)
    requires
        image.len() > 0,
        image[0] == 'g',
    ensures
        sole_option(
            sandbox::container_arguments(image, limits, name, source),
            "--memory="@,
            "--memory="@ + number::decimal(limits.memory_mib as nat) + "m"@,
        ),
{
    let list = sandbox::container_arguments(image, limits, name, source);
    let option = "--memory="@;
    reveal_strlit("--memory=");
    reveal_strlit("--cap-drop=ALL");
    reveal_strlit("--cpus=");
    reveal_strlit("--entrypoint=/usr/local/bin/validate-u9");
    reveal_strlit("--image-volume=ignore");
    reveal_strlit("--ipc=private");
    reveal_strlit("--log-driver=none");
    reveal_strlit("--memory-swap=");
    reveal_strlit("--mount");
    reveal_strlit("--name=");
    reveal_strlit("--network=none");
    reveal_strlit("--pid=private");
    reveal_strlit("--pids-limit=");
    reveal_strlit("--pull=never");
    reveal_strlit("--read-only");
    reveal_strlit("--read-only-tmpfs=false");
    reveal_strlit("--remote=false");
    reveal_strlit("--rm");
    reveal_strlit("--security-opt=no-new-privileges");
    reveal_strlit("--shm-size=16m");
    reveal_strlit("--timeout=");
    reveal_strlit("--tmpfs");
    reveal_strlit("--user=65532:65532");
    reveal_strlit("--workdir=/work");
    reveal_strlit("/dev/shm:rw,nosuid,nodev,noexec,size=16m,mode=1777");
    reveal_strlit("/tmp:rw,nosuid,nodev,noexec,size=16m,mode=1777");
    reveal_strlit("/work:rw,nosuid,nodev,exec,size=");
    reveal_strlit("run");
    reveal_strlit("type=bind,src=");
    lemma_not_option(list[0], option, 2);
    lemma_not_option(list[1], option, 0);
    lemma_not_option(list[2], option, 2);
    lemma_not_option(list[3], option, 2);
    lemma_not_option(list[4], option, 2);
    lemma_not_option(list[5], option, 2);
    lemma_not_option(list[6], option, 2);
    lemma_not_option(list[7], option, 2);
    lemma_not_option(list[8], option, 2);
    lemma_not_option(list[9], option, 2);
    lemma_not_option(list[10], option, 2);
    lemma_not_option(list[11], option, 2);
    lemma_not_option(list[12], option, 2);
    lemma_not_option(list[13], option, 2);
    lemma_not_option(list[14], option, 2);
    lemma_not_option(list[15], option, 2);
    lemma_not_option(list[17], option, 8);
    lemma_not_option(list[18], option, 2);
    lemma_not_option(list[19], option, 2);
    lemma_not_option(list[20], option, 2);
    lemma_not_option(list[21], option, 2);
    lemma_not_option(list[22], option, 0);
    lemma_not_option(list[23], option, 2);
    lemma_not_option(list[24], option, 0);
    lemma_not_option(list[25], option, 2);
    lemma_not_option(list[26], option, 0);
    lemma_not_option(list[27], option, 3);
    lemma_not_option(list[28], option, 0);
    lemma_not_option(list[29], option, 2);
    lemma_not_option(list[30], option, 2);
    lemma_not_option(list[31], option, 0);
    assert(list[16] == "--memory="@ + number::decimal(limits.memory_mib as nat) + "m"@);
}

proof fn lemma_option_memory_swap(
    image: Seq<char>,
    limits: SandboxLimits,
    name: Seq<char>,
    source: Seq<char>,
)
    requires
        image.len() > 0,
        image[0] == 'g',
    ensures
        sole_option(
            sandbox::container_arguments(image, limits, name, source),
            "--memory-swap"@,
            "--memory-swap="@ + number::decimal(limits.memory_mib as nat) + "m"@,
        ),
{
    let list = sandbox::container_arguments(image, limits, name, source);
    let option = "--memory-swap"@;
    reveal_strlit("--memory-swap");
    reveal_strlit("--cap-drop=ALL");
    reveal_strlit("--cpus=");
    reveal_strlit("--entrypoint=/usr/local/bin/validate-u9");
    reveal_strlit("--image-volume=ignore");
    reveal_strlit("--ipc=private");
    reveal_strlit("--log-driver=none");
    reveal_strlit("--memory=");
    reveal_strlit("--mount");
    reveal_strlit("--name=");
    reveal_strlit("--network=none");
    reveal_strlit("--pid=private");
    reveal_strlit("--pids-limit=");
    reveal_strlit("--pull=never");
    reveal_strlit("--read-only");
    reveal_strlit("--read-only-tmpfs=false");
    reveal_strlit("--remote=false");
    reveal_strlit("--rm");
    reveal_strlit("--security-opt=no-new-privileges");
    reveal_strlit("--shm-size=16m");
    reveal_strlit("--timeout=");
    reveal_strlit("--tmpfs");
    reveal_strlit("--user=65532:65532");
    reveal_strlit("--workdir=/work");
    reveal_strlit("/dev/shm:rw,nosuid,nodev,noexec,size=16m,mode=1777");
    reveal_strlit("/tmp:rw,nosuid,nodev,noexec,size=16m,mode=1777");
    reveal_strlit("/work:rw,nosuid,nodev,exec,size=");
    reveal_strlit("run");
    reveal_strlit("type=bind,src=");
    lemma_not_option(list[0], option, 2);
    lemma_not_option(list[1], option, 0);
    lemma_not_option(list[2], option, 2);
    lemma_not_option(list[3], option, 2);
    lemma_not_option(list[4], option, 2);
    lemma_not_option(list[5], option, 2);
    lemma_not_option(list[6], option, 2);
    lemma_not_option(list[7], option, 2);
    lemma_not_option(list[8], option, 2);
    lemma_not_option(list[9], option, 2);
    lemma_not_option(list[10], option, 2);
    lemma_not_option(list[11], option, 2);
    lemma_not_option(list[12], option, 2);
    lemma_not_option(list[13], option, 2);
    lemma_not_option(list[14], option, 2);
    lemma_not_option(list[15], option, 2);
    lemma_not_option(list[16], option, 8);
    lemma_not_option(list[18], option, 2);
    lemma_not_option(list[19], option, 2);
    lemma_not_option(list[20], option, 2);
    lemma_not_option(list[21], option, 2);
    lemma_not_option(list[22], option, 0);
    lemma_not_option(list[23], option, 2);
    lemma_not_option(list[24], option, 0);
    lemma_not_option(list[25], option, 2);
    lemma_not_option(list[26], option, 0);
    lemma_not_option(list[27], option, 3);
    lemma_not_option(list[28], option, 0);
    lemma_not_option(list[29], option, 2);
    lemma_not_option(list[30], option, 2);
    lemma_not_option(list[31], option, 0);
    assert(list[17] == "--memory-swap="@ + number::decimal(limits.memory_mib as nat) + "m"@);
}

proof fn lemma_option_cpus(
    image: Seq<char>,
    limits: SandboxLimits,
    name: Seq<char>,
    source: Seq<char>,
)
    requires
        image.len() > 0,
        image[0] == 'g',
    ensures
        sole_option(
            sandbox::container_arguments(image, limits, name, source),
            "--cpus"@,
            "--cpus="@ + number::decimal(limits.cpus as nat),
        ),
{
    let list = sandbox::container_arguments(image, limits, name, source);
    let option = "--cpus"@;
    reveal_strlit("--cpus");
    reveal_strlit("--cap-drop=ALL");
    reveal_strlit("--entrypoint=/usr/local/bin/validate-u9");
    reveal_strlit("--image-volume=ignore");
    reveal_strlit("--ipc=private");
    reveal_strlit("--log-driver=none");
    reveal_strlit("--memory-swap=");
    reveal_strlit("--memory=");
    reveal_strlit("--mount");
    reveal_strlit("--name=");
    reveal_strlit("--network=none");
    reveal_strlit("--pid=private");
    reveal_strlit("--pids-limit=");
    reveal_strlit("--pull=never");
    reveal_strlit("--read-only");
    reveal_strlit("--read-only-tmpfs=false");
    reveal_strlit("--remote=false");
    reveal_strlit("--rm");
    reveal_strlit("--security-opt=no-new-privileges");
    reveal_strlit("--shm-size=16m");
    reveal_strlit("--timeout=");
    reveal_strlit("--tmpfs");
    reveal_strlit("--user=65532:65532");
    reveal_strlit("--workdir=/work");
    reveal_strlit("/dev/shm:rw,nosuid,nodev,noexec,size=16m,mode=1777");
    reveal_strlit("/tmp:rw,nosuid,nodev,noexec,size=16m,mode=1777");
    reveal_strlit("/work:rw,nosuid,nodev,exec,size=");
    reveal_strlit("run");
    reveal_strlit("type=bind,src=");
    lemma_not_option(list[0], option, 2);
    lemma_not_option(list[1], option, 0);
    lemma_not_option(list[2], option, 2);
    lemma_not_option(list[3], option, 2);
    lemma_not_option(list[4], option, 2);
    lemma_not_option(list[5], option, 2);
    lemma_not_option(list[6], option, 2);
    lemma_not_option(list[7], option, 2);
    lemma_not_option(list[8], option, 2);
    lemma_not_option(list[9], option, 3);
    lemma_not_option(list[10], option, 2);
    lemma_not_option(list[11], option, 2);
    lemma_not_option(list[12], option, 2);
    lemma_not_option(list[13], option, 2);
    lemma_not_option(list[14], option, 2);
    lemma_not_option(list[15], option, 2);
    lemma_not_option(list[16], option, 2);
    lemma_not_option(list[17], option, 2);
    lemma_not_option(list[19], option, 2);
    lemma_not_option(list[20], option, 2);
    lemma_not_option(list[21], option, 2);
    lemma_not_option(list[22], option, 0);
    lemma_not_option(list[23], option, 2);
    lemma_not_option(list[24], option, 0);
    lemma_not_option(list[25], option, 2);
    lemma_not_option(list[26], option, 0);
    lemma_not_option(list[27], option, 2);
    lemma_not_option(list[28], option, 0);
    lemma_not_option(list[29], option, 2);
    lemma_not_option(list[30], option, 2);
    lemma_not_option(list[31], option, 0);
    assert(list[18] == "--cpus="@ + number::decimal(limits.cpus as nat));
}

proof fn lemma_option_pids_limit(
    image: Seq<char>,
    limits: SandboxLimits,
    name: Seq<char>,
    source: Seq<char>,
)
    requires
        image.len() > 0,
        image[0] == 'g',
    ensures
        sole_option(
            sandbox::container_arguments(image, limits, name, source),
            "--pids-limit"@,
            "--pids-limit="@ + number::decimal(limits.pids as nat),
        ),
{
    let list = sandbox::container_arguments(image, limits, name, source);
    let option = "--pids-limit"@;
    reveal_strlit("--pids-limit");
    reveal_strlit("--cap-drop=ALL");
    reveal_strlit("--cpus=");
    reveal_strlit("--entrypoint=/usr/local/bin/validate-u9");
    reveal_strlit("--image-volume=ignore");
    reveal_strlit("--ipc=private");
    reveal_strlit("--log-driver=none");
    reveal_strlit("--memory-swap=");
    reveal_strlit("--memory=");
    reveal_strlit("--mount");
    reveal_strlit("--name=");
    reveal_strlit("--network=none");
    reveal_strlit("--pid=private");
    reveal_strlit("--pull=never");
    reveal_strlit("--read-only");
    reveal_strlit("--read-only-tmpfs=false");
    reveal_strlit("--remote=false");
    reveal_strlit("--rm");
    reveal_strlit("--security-opt=no-new-privileges");
    reveal_strlit("--shm-size=16m");
    reveal_strlit("--timeout=");
    reveal_strlit("--tmpfs");
    reveal_strlit("--user=65532:65532");
    reveal_strlit("--workdir=/work");
    reveal_strlit("/dev/shm:rw,nosuid,nodev,noexec,size=16m,mode=1777");
    reveal_strlit("/tmp:rw,nosuid,nodev,noexec,size=16m,mode=1777");
    reveal_strlit("/work:rw,nosuid,nodev,exec,size=");
    reveal_strlit("run");
    reveal_strlit("type=bind,src=");
    lemma_not_option(list[0], option, 2);
    lemma_not_option(list[1], option, 0);
    lemma_not_option(list[2], option, 2);
    lemma_not_option(list[3], option, 2);
    lemma_not_option(list[4], option, 3);
    lemma_not_option(list[5], option, 2);
    lemma_not_option(list[6], option, 2);
    lemma_not_option(list[7], option, 2);
    lemma_not_option(list[8], option, 2);
    lemma_not_option(list[9], option, 2);
    lemma_not_option(list[10], option, 2);
    lemma_not_option(list[11], option, 2);
    lemma_not_option(list[12], option, 5);
    lemma_not_option(list[13], option, 2);
    lemma_not_option(list[14], option, 2);
    lemma_not_option(list[15], option, 2);
    lemma_not_option(list[16], option, 2);
    lemma_not_option(list[17], option, 2);
    lemma_not_option(list[18], option, 2);
    lemma_not_option(list[20], option, 2);
    lemma_not_option(list[21], option, 2);
    lemma_not_option(list[22], option, 0);
    lemma_not_option(list[23], option, 2);
    lemma_not_option(list[24], option, 0);
    lemma_not_option(list[25], option, 2);
    lemma_not_option(list[26], option, 0);
    lemma_not_option(list[27], option, 2);
    lemma_not_option(list[28], option, 0);
    lemma_not_option(list[29], option, 2);
    lemma_not_option(list[30], option, 2);
    lemma_not_option(list[31], option, 0);
    assert(list[19] == "--pids-limit="@ + number::decimal(limits.pids as nat));
}

proof fn lemma_option_shm_size(
    image: Seq<char>,
    limits: SandboxLimits,
    name: Seq<char>,
    source: Seq<char>,
)
    requires
        image.len() > 0,
        image[0] == 'g',
    ensures
        sole_option(
            sandbox::container_arguments(image, limits, name, source),
            "--shm-size"@,
            "--shm-size=16m"@,
        ),
{
    let list = sandbox::container_arguments(image, limits, name, source);
    let option = "--shm-size"@;
    reveal_strlit("--shm-size");
    reveal_strlit("--cap-drop=ALL");
    reveal_strlit("--cpus=");
    reveal_strlit("--entrypoint=/usr/local/bin/validate-u9");
    reveal_strlit("--image-volume=ignore");
    reveal_strlit("--ipc=private");
    reveal_strlit("--log-driver=none");
    reveal_strlit("--memory-swap=");
    reveal_strlit("--memory=");
    reveal_strlit("--mount");
    reveal_strlit("--name=");
    reveal_strlit("--network=none");
    reveal_strlit("--pid=private");
    reveal_strlit("--pids-limit=");
    reveal_strlit("--pull=never");
    reveal_strlit("--read-only");
    reveal_strlit("--read-only-tmpfs=false");
    reveal_strlit("--remote=false");
    reveal_strlit("--rm");
    reveal_strlit("--security-opt=no-new-privileges");
    reveal_strlit("--timeout=");
    reveal_strlit("--tmpfs");
    reveal_strlit("--user=65532:65532");
    reveal_strlit("--workdir=/work");
    reveal_strlit("/dev/shm:rw,nosuid,nodev,noexec,size=16m,mode=1777");
    reveal_strlit("/tmp:rw,nosuid,nodev,noexec,size=16m,mode=1777");
    reveal_strlit("/work:rw,nosuid,nodev,exec,size=");
    reveal_strlit("run");
    reveal_strlit("type=bind,src=");
    lemma_not_option(list[0], option, 2);
    lemma_not_option(list[1], option, 0);
    lemma_not_option(list[2], option, 2);
    lemma_not_option(list[3], option, 2);
    lemma_not_option(list[4], option, 2);
    lemma_not_option(list[5], option, 2);
    lemma_not_option(list[6], option, 2);
    lemma_not_option(list[7], option, 2);
    lemma_not_option(list[8], option, 2);
    lemma_not_option(list[9], option, 2);
    lemma_not_option(list[10], option, 3);
    lemma_not_option(list[11], option, 2);
    lemma_not_option(list[12], option, 2);
    lemma_not_option(list[13], option, 2);
    lemma_not_option(list[14], option, 2);
    lemma_not_option(list[15], option, 2);
    lemma_not_option(list[16], option, 2);
    lemma_not_option(list[17], option, 2);
    lemma_not_option(list[18], option, 2);
    lemma_not_option(list[19], option, 2);
    lemma_not_option(list[21], option, 2);
    lemma_not_option(list[22], option, 0);
    lemma_not_option(list[23], option, 2);
    lemma_not_option(list[24], option, 0);
    lemma_not_option(list[25], option, 2);
    lemma_not_option(list[26], option, 0);
    lemma_not_option(list[27], option, 2);
    lemma_not_option(list[28], option, 0);
    lemma_not_option(list[29], option, 2);
    lemma_not_option(list[30], option, 2);
    lemma_not_option(list[31], option, 0);
    assert(list[20] == "--shm-size=16m"@);
}

proof fn lemma_option_mount(
    image: Seq<char>,
    limits: SandboxLimits,
    name: Seq<char>,
    source: Seq<char>,
)
    requires
        image.len() > 0,
        image[0] == 'g',
    ensures
        sole_option(
            sandbox::container_arguments(image, limits, name, source),
            "--mount"@,
            "--mount"@,
        ),
{
    let list = sandbox::container_arguments(image, limits, name, source);
    let option = "--mount"@;
    reveal_strlit("--mount");
    reveal_strlit("--cap-drop=ALL");
    reveal_strlit("--cpus=");
    reveal_strlit("--entrypoint=/usr/local/bin/validate-u9");
    reveal_strlit("--image-volume=ignore");
    reveal_strlit("--ipc=private");
    reveal_strlit("--log-driver=none");
    reveal_strlit("--memory-swap=");
    reveal_strlit("--memory=");
    reveal_strlit("--name=");
    reveal_strlit("--network=none");
    reveal_strlit("--pid=private");
    reveal_strlit("--pids-limit=");
    reveal_strlit("--pull=never");
    reveal_strlit("--read-only");
    reveal_strlit("--read-only-tmpfs=false");
    reveal_strlit("--remote=false");
    reveal_strlit("--rm");
    reveal_strlit("--security-opt=no-new-privileges");
    reveal_strlit("--shm-size=16m");
    reveal_strlit("--timeout=");
    reveal_strlit("--tmpfs");
    reveal_strlit("--user=65532:65532");
    reveal_strlit("--workdir=/work");
    reveal_strlit("/dev/shm:rw,nosuid,nodev,noexec,size=16m,mode=1777");
    reveal_strlit("/tmp:rw,nosuid,nodev,noexec,size=16m,mode=1777");
    reveal_strlit("/work:rw,nosuid,nodev,exec,size=");
    reveal_strlit("run");
    reveal_strlit("type=bind,src=");
    lemma_not_option(list[0], option, 2);
    lemma_not_option(list[1], option, 0);
    lemma_not_option(list[2], option, 2);
    lemma_not_option(list[3], option, 2);
    lemma_not_option(list[4], option, 2);
    lemma_not_option(list[5], option, 2);
    lemma_not_option(list[6], option, 2);
    lemma_not_option(list[7], option, 2);
    lemma_not_option(list[8], option, 2);
    lemma_not_option(list[9], option, 2);
    lemma_not_option(list[10], option, 2);
    lemma_not_option(list[11], option, 2);
    lemma_not_option(list[12], option, 2);
    lemma_not_option(list[13], option, 2);
    lemma_not_option(list[14], option, 2);
    lemma_not_option(list[15], option, 2);
    lemma_not_option(list[16], option, 3);
    lemma_not_option(list[17], option, 3);
    lemma_not_option(list[18], option, 2);
    lemma_not_option(list[19], option, 2);
    lemma_not_option(list[20], option, 2);
    lemma_not_option(list[21], option, 2);
    lemma_not_option(list[22], option, 0);
    lemma_not_option(list[23], option, 2);
    lemma_not_option(list[24], option, 0);
    lemma_not_option(list[25], option, 2);
    lemma_not_option(list[26], option, 0);
    lemma_not_option(list[28], option, 0);
    lemma_not_option(list[29], option, 2);
    lemma_not_option(list[30], option, 2);
    lemma_not_option(list[31], option, 0);
    assert(list[27] == "--mount"@);
}

proof fn lemma_option_workdir(
    image: Seq<char>,
    limits: SandboxLimits,
    name: Seq<char>,
    source: Seq<char>,
)
    requires
        image.len() > 0,
        image[0] == 'g',
    ensures
        sole_option(
            sandbox::container_arguments(image, limits, name, source),
            "--workdir"@,
            "--workdir=/work"@,
        ),
{
    let list = sandbox::container_arguments(image, limits, name, source);
    let option = "--workdir"@;
    reveal_strlit("--workdir");
    reveal_strlit("--cap-drop=ALL");
    reveal_strlit("--cpus=");
    reveal_strlit("--entrypoint=/usr/local/bin/validate-u9");
    reveal_strlit("--image-volume=ignore");
    reveal_strlit("--ipc=private");
    reveal_strlit("--log-driver=none");
    reveal_strlit("--memory-swap=");
    reveal_strlit("--memory=");
    reveal_strlit("--mount");
    reveal_strlit("--name=");
    reveal_strlit("--network=none");
    reveal_strlit("--pid=private");
    reveal_strlit("--pids-limit=");
    reveal_strlit("--pull=never");
    reveal_strlit("--read-only");
    reveal_strlit("--read-only-tmpfs=false");
    reveal_strlit("--remote=false");
    reveal_strlit("--rm");
    reveal_strlit("--security-opt=no-new-privileges");
    reveal_strlit("--shm-size=16m");
    reveal_strlit("--timeout=");
    reveal_strlit("--tmpfs");
    reveal_strlit("--user=65532:65532");
    reveal_strlit("/dev/shm:rw,nosuid,nodev,noexec,size=16m,mode=1777");
    reveal_strlit("/tmp:rw,nosuid,nodev,noexec,size=16m,mode=1777");
    reveal_strlit("/work:rw,nosuid,nodev,exec,size=");
    reveal_strlit("run");
    reveal_strlit("type=bind,src=");
    lemma_not_option(list[0], option, 2);
    lemma_not_option(list[1], option, 0);
    lemma_not_option(list[2], option, 2);
    lemma_not_option(list[3], option, 2);
    lemma_not_option(list[4], option, 2);
    lemma_not_option(list[5], option, 2);
    lemma_not_option(list[6], option, 2);
    lemma_not_option(list[7], option, 2);
    lemma_not_option(list[8], option, 2);
    lemma_not_option(list[9], option, 2);
    lemma_not_option(list[10], option, 2);
    lemma_not_option(list[11], option, 2);
    lemma_not_option(list[12], option, 2);
    lemma_not_option(list[13], option, 2);
    lemma_not_option(list[14], option, 2);
    lemma_not_option(list[15], option, 2);
    lemma_not_option(list[16], option, 2);
    lemma_not_option(list[17], option, 2);
    lemma_not_option(list[18], option, 2);
    lemma_not_option(list[19], option, 2);
    lemma_not_option(list[20], option, 2);
    lemma_not_option(list[21], option, 2);
    lemma_not_option(list[22], option, 0);
    lemma_not_option(list[23], option, 2);
    lemma_not_option(list[24], option, 0);
    lemma_not_option(list[25], option, 2);
    lemma_not_option(list[26], option, 0);
    lemma_not_option(list[27], option, 2);
    lemma_not_option(list[28], option, 0);
    lemma_not_option(list[30], option, 2);
    lemma_not_option(list[31], option, 0);
    assert(list[29] == "--workdir=/work"@);
}

proof fn lemma_option_entrypoint(
    image: Seq<char>,
    limits: SandboxLimits,
    name: Seq<char>,
    source: Seq<char>,
)
    requires
        image.len() > 0,
        image[0] == 'g',
    ensures
        sole_option(
            sandbox::container_arguments(image, limits, name, source),
            "--entrypoint"@,
            "--entrypoint=/usr/local/bin/validate-u9"@,
        ),
{
    let list = sandbox::container_arguments(image, limits, name, source);
    let option = "--entrypoint"@;
    reveal_strlit("--entrypoint");
    reveal_strlit("--cap-drop=ALL");
    reveal_strlit("--cpus=");
    reveal_strlit("--image-volume=ignore");
    reveal_strlit("--ipc=private");
    reveal_strlit("--log-driver=none");
    reveal_strlit("--memory-swap=");
    reveal_strlit("--memory=");
    reveal_strlit("--mount");
    reveal_strlit("--name=");
    reveal_strlit("--network=none");
    reveal_strlit("--pid=private");
    reveal_strlit("--pids-limit=");
    reveal_strlit("--pull=never");
    reveal_strlit("--read-only");
    reveal_strlit("--read-only-tmpfs=false");
    reveal_strlit("--remote=false");
    reveal_strlit("--rm");
    reveal_strlit("--security-opt=no-new-privileges");
    reveal_strlit("--shm-size=16m");
    reveal_strlit("--timeout=");
    reveal_strlit("--tmpfs");
    reveal_strlit("--user=65532:65532");
    reveal_strlit("--workdir=/work");
    reveal_strlit("/dev/shm:rw,nosuid,nodev,noexec,size=16m,mode=1777");
    reveal_strlit("/tmp:rw,nosuid,nodev,noexec,size=16m,mode=1777");
    reveal_strlit("/work:rw,nosuid,nodev,exec,size=");
    reveal_strlit("run");
    reveal_strlit("type=bind,src=");
    lemma_not_option(list[0], option, 2);
    lemma_not_option(list[1], option, 0);
    lemma_not_option(list[2], option, 2);
    lemma_not_option(list[3], option, 2);
    lemma_not_option(list[4], option, 2);
    lemma_not_option(list[5], option, 2);
    lemma_not_option(list[6], option, 2);
    lemma_not_option(list[7], option, 2);
    lemma_not_option(list[8], option, 2);
    lemma_not_option(list[9], option, 2);
    lemma_not_option(list[10], option, 2);
    lemma_not_option(list[11], option, 2);
    lemma_not_option(list[12], option, 2);
    lemma_not_option(list[13], option, 2);
    lemma_not_option(list[14], option, 2);
    lemma_not_option(list[15], option, 2);
    lemma_not_option(list[16], option, 2);
    lemma_not_option(list[17], option, 2);
    lemma_not_option(list[18], option, 2);
    lemma_not_option(list[19], option, 2);
    lemma_not_option(list[20], option, 2);
    lemma_not_option(list[21], option, 2);
    lemma_not_option(list[22], option, 0);
    lemma_not_option(list[23], option, 2);
    lemma_not_option(list[24], option, 0);
    lemma_not_option(list[25], option, 2);
    lemma_not_option(list[26], option, 0);
    lemma_not_option(list[27], option, 2);
    lemma_not_option(list[28], option, 0);
    lemma_not_option(list[29], option, 2);
    lemma_not_option(list[31], option, 0);
    assert(list[30] == "--entrypoint=/usr/local/bin/validate-u9"@);
}

proof fn lemma_without_privileged(
    image: Seq<char>,
    limits: SandboxLimits,
    name: Seq<char>,
    source: Seq<char>,
)
    requires
        image.len() > 0,
        image[0] == 'g',
    ensures
        lacks_option(sandbox::container_arguments(image, limits, name, source), "--privileged"@),
{
    let list = sandbox::container_arguments(image, limits, name, source);
    let option = "--privileged"@;
    reveal_strlit("--privileged");
    reveal_strlit("--cap-drop=ALL");
    reveal_strlit("--cpus=");
    reveal_strlit("--entrypoint=/usr/local/bin/validate-u9");
    reveal_strlit("--image-volume=ignore");
    reveal_strlit("--ipc=private");
    reveal_strlit("--log-driver=none");
    reveal_strlit("--memory-swap=");
    reveal_strlit("--memory=");
    reveal_strlit("--mount");
    reveal_strlit("--name=");
    reveal_strlit("--network=none");
    reveal_strlit("--pid=private");
    reveal_strlit("--pids-limit=");
    reveal_strlit("--pull=never");
    reveal_strlit("--read-only");
    reveal_strlit("--read-only-tmpfs=false");
    reveal_strlit("--remote=false");
    reveal_strlit("--rm");
    reveal_strlit("--security-opt=no-new-privileges");
    reveal_strlit("--shm-size=16m");
    reveal_strlit("--timeout=");
    reveal_strlit("--tmpfs");
    reveal_strlit("--user=65532:65532");
    reveal_strlit("--workdir=/work");
    reveal_strlit("/dev/shm:rw,nosuid,nodev,noexec,size=16m,mode=1777");
    reveal_strlit("/tmp:rw,nosuid,nodev,noexec,size=16m,mode=1777");
    reveal_strlit("/work:rw,nosuid,nodev,exec,size=");
    reveal_strlit("run");
    reveal_strlit("type=bind,src=");
    lemma_not_option(list[0], option, 2);
    lemma_not_option(list[1], option, 0);
    lemma_not_option(list[2], option, 2);
    lemma_not_option(list[3], option, 2);
    lemma_not_option(list[4], option, 3);
    lemma_not_option(list[5], option, 2);
    lemma_not_option(list[6], option, 2);
    lemma_not_option(list[7], option, 2);
    lemma_not_option(list[8], option, 2);
    lemma_not_option(list[9], option, 2);
    lemma_not_option(list[10], option, 2);
    lemma_not_option(list[11], option, 2);
    lemma_not_option(list[12], option, 3);
    lemma_not_option(list[13], option, 2);
    lemma_not_option(list[14], option, 2);
    lemma_not_option(list[15], option, 2);
    lemma_not_option(list[16], option, 2);
    lemma_not_option(list[17], option, 2);
    lemma_not_option(list[18], option, 2);
    lemma_not_option(list[19], option, 3);
    lemma_not_option(list[20], option, 2);
    lemma_not_option(list[21], option, 2);
    lemma_not_option(list[22], option, 0);
    lemma_not_option(list[23], option, 2);
    lemma_not_option(list[24], option, 0);
    lemma_not_option(list[25], option, 2);
    lemma_not_option(list[26], option, 0);
    lemma_not_option(list[27], option, 2);
    lemma_not_option(list[28], option, 0);
    lemma_not_option(list[29], option, 2);
    lemma_not_option(list[30], option, 2);
    lemma_not_option(list[31], option, 0);
}

proof fn lemma_without_cap_add(
    image: Seq<char>,
    limits: SandboxLimits,
    name: Seq<char>,
    source: Seq<char>,
)
    requires
        image.len() > 0,
        image[0] == 'g',
    ensures
        lacks_option(sandbox::container_arguments(image, limits, name, source), "--cap-add"@),
{
    let list = sandbox::container_arguments(image, limits, name, source);
    let option = "--cap-add"@;
    reveal_strlit("--cap-add");
    reveal_strlit("--cap-drop=ALL");
    reveal_strlit("--cpus=");
    reveal_strlit("--entrypoint=/usr/local/bin/validate-u9");
    reveal_strlit("--image-volume=ignore");
    reveal_strlit("--ipc=private");
    reveal_strlit("--log-driver=none");
    reveal_strlit("--memory-swap=");
    reveal_strlit("--memory=");
    reveal_strlit("--mount");
    reveal_strlit("--name=");
    reveal_strlit("--network=none");
    reveal_strlit("--pid=private");
    reveal_strlit("--pids-limit=");
    reveal_strlit("--pull=never");
    reveal_strlit("--read-only");
    reveal_strlit("--read-only-tmpfs=false");
    reveal_strlit("--remote=false");
    reveal_strlit("--rm");
    reveal_strlit("--security-opt=no-new-privileges");
    reveal_strlit("--shm-size=16m");
    reveal_strlit("--timeout=");
    reveal_strlit("--tmpfs");
    reveal_strlit("--user=65532:65532");
    reveal_strlit("--workdir=/work");
    reveal_strlit("/dev/shm:rw,nosuid,nodev,noexec,size=16m,mode=1777");
    reveal_strlit("/tmp:rw,nosuid,nodev,noexec,size=16m,mode=1777");
    reveal_strlit("/work:rw,nosuid,nodev,exec,size=");
    reveal_strlit("run");
    reveal_strlit("type=bind,src=");
    lemma_not_option(list[0], option, 2);
    lemma_not_option(list[1], option, 0);
    lemma_not_option(list[2], option, 2);
    lemma_not_option(list[3], option, 2);
    lemma_not_option(list[4], option, 2);
    lemma_not_option(list[5], option, 2);
    lemma_not_option(list[6], option, 2);
    lemma_not_option(list[7], option, 2);
    lemma_not_option(list[8], option, 2);
    lemma_not_option(list[9], option, 6);
    lemma_not_option(list[10], option, 2);
    lemma_not_option(list[11], option, 2);
    lemma_not_option(list[12], option, 2);
    lemma_not_option(list[13], option, 2);
    lemma_not_option(list[14], option, 2);
    lemma_not_option(list[15], option, 2);
    lemma_not_option(list[16], option, 2);
    lemma_not_option(list[17], option, 2);
    lemma_not_option(list[18], option, 3);
    lemma_not_option(list[19], option, 2);
    lemma_not_option(list[20], option, 2);
    lemma_not_option(list[21], option, 2);
    lemma_not_option(list[22], option, 0);
    lemma_not_option(list[23], option, 2);
    lemma_not_option(list[24], option, 0);
    lemma_not_option(list[25], option, 2);
    lemma_not_option(list[26], option, 0);
    lemma_not_option(list[27], option, 2);
    lemma_not_option(list[28], option, 0);
    lemma_not_option(list[29], option, 2);
    lemma_not_option(list[30], option, 2);
    lemma_not_option(list[31], option, 0);
}

proof fn lemma_without_volume(
    image: Seq<char>,
    limits: SandboxLimits,
    name: Seq<char>,
    source: Seq<char>,
)
    requires
        image.len() > 0,
        image[0] == 'g',
    ensures
        lacks_option(sandbox::container_arguments(image, limits, name, source), "--volume"@),
{
    let list = sandbox::container_arguments(image, limits, name, source);
    let option = "--volume"@;
    reveal_strlit("--volume");
    reveal_strlit("--cap-drop=ALL");
    reveal_strlit("--cpus=");
    reveal_strlit("--entrypoint=/usr/local/bin/validate-u9");
    reveal_strlit("--image-volume=ignore");
    reveal_strlit("--ipc=private");
    reveal_strlit("--log-driver=none");
    reveal_strlit("--memory-swap=");
    reveal_strlit("--memory=");
    reveal_strlit("--mount");
    reveal_strlit("--name=");
    reveal_strlit("--network=none");
    reveal_strlit("--pid=private");
    reveal_strlit("--pids-limit=");
    reveal_strlit("--pull=never");
    reveal_strlit("--read-only");
    reveal_strlit("--read-only-tmpfs=false");
    reveal_strlit("--remote=false");
    reveal_strlit("--rm");
    reveal_strlit("--security-opt=no-new-privileges");
    reveal_strlit("--shm-size=16m");
    reveal_strlit("--timeout=");
    reveal_strlit("--tmpfs");
    reveal_strlit("--user=65532:65532");
    reveal_strlit("--workdir=/work");
    reveal_strlit("/dev/shm:rw,nosuid,nodev,noexec,size=16m,mode=1777");
    reveal_strlit("/tmp:rw,nosuid,nodev,noexec,size=16m,mode=1777");
    reveal_strlit("/work:rw,nosuid,nodev,exec,size=");
    reveal_strlit("run");
    reveal_strlit("type=bind,src=");
    lemma_not_option(list[0], option, 2);
    lemma_not_option(list[1], option, 0);
    lemma_not_option(list[2], option, 2);
    lemma_not_option(list[3], option, 2);
    lemma_not_option(list[4], option, 2);
    lemma_not_option(list[5], option, 2);
    lemma_not_option(list[6], option, 2);
    lemma_not_option(list[7], option, 2);
    lemma_not_option(list[8], option, 2);
    lemma_not_option(list[9], option, 2);
    lemma_not_option(list[10], option, 2);
    lemma_not_option(list[11], option, 2);
    lemma_not_option(list[12], option, 2);
    lemma_not_option(list[13], option, 2);
    lemma_not_option(list[14], option, 2);
    lemma_not_option(list[15], option, 2);
    lemma_not_option(list[16], option, 2);
    lemma_not_option(list[17], option, 2);
    lemma_not_option(list[18], option, 2);
    lemma_not_option(list[19], option, 2);
    lemma_not_option(list[20], option, 2);
    lemma_not_option(list[21], option, 2);
    lemma_not_option(list[22], option, 0);
    lemma_not_option(list[23], option, 2);
    lemma_not_option(list[24], option, 0);
    lemma_not_option(list[25], option, 2);
    lemma_not_option(list[26], option, 0);
    lemma_not_option(list[27], option, 2);
    lemma_not_option(list[28], option, 0);
    lemma_not_option(list[29], option, 2);
    lemma_not_option(list[30], option, 2);
    lemma_not_option(list[31], option, 0);
}

proof fn lemma_without_v(
    image: Seq<char>,
    limits: SandboxLimits,
    name: Seq<char>,
    source: Seq<char>,
)
    requires
        image.len() > 0,
        image[0] == 'g',
    ensures
        lacks_option(sandbox::container_arguments(image, limits, name, source), "-v"@),
{
    let list = sandbox::container_arguments(image, limits, name, source);
    let option = "-v"@;
    reveal_strlit("-v");
    reveal_strlit("--cap-drop=ALL");
    reveal_strlit("--cpus=");
    reveal_strlit("--entrypoint=/usr/local/bin/validate-u9");
    reveal_strlit("--image-volume=ignore");
    reveal_strlit("--ipc=private");
    reveal_strlit("--log-driver=none");
    reveal_strlit("--memory-swap=");
    reveal_strlit("--memory=");
    reveal_strlit("--mount");
    reveal_strlit("--name=");
    reveal_strlit("--network=none");
    reveal_strlit("--pid=private");
    reveal_strlit("--pids-limit=");
    reveal_strlit("--pull=never");
    reveal_strlit("--read-only");
    reveal_strlit("--read-only-tmpfs=false");
    reveal_strlit("--remote=false");
    reveal_strlit("--rm");
    reveal_strlit("--security-opt=no-new-privileges");
    reveal_strlit("--shm-size=16m");
    reveal_strlit("--timeout=");
    reveal_strlit("--tmpfs");
    reveal_strlit("--user=65532:65532");
    reveal_strlit("--workdir=/work");
    reveal_strlit("/dev/shm:rw,nosuid,nodev,noexec,size=16m,mode=1777");
    reveal_strlit("/tmp:rw,nosuid,nodev,noexec,size=16m,mode=1777");
    reveal_strlit("/work:rw,nosuid,nodev,exec,size=");
    reveal_strlit("run");
    reveal_strlit("type=bind,src=");
    lemma_not_option(list[0], option, 1);
    lemma_not_option(list[1], option, 0);
    lemma_not_option(list[2], option, 1);
    lemma_not_option(list[3], option, 1);
    lemma_not_option(list[4], option, 1);
    lemma_not_option(list[5], option, 1);
    lemma_not_option(list[6], option, 1);
    lemma_not_option(list[7], option, 1);
    lemma_not_option(list[8], option, 1);
    lemma_not_option(list[9], option, 1);
    lemma_not_option(list[10], option, 1);
    lemma_not_option(list[11], option, 1);
    lemma_not_option(list[12], option, 1);
    lemma_not_option(list[13], option, 1);
    lemma_not_option(list[14], option, 1);
    lemma_not_option(list[15], option, 1);
    lemma_not_option(list[16], option, 1);
    lemma_not_option(list[17], option, 1);
    lemma_not_option(list[18], option, 1);
    lemma_not_option(list[19], option, 1);
    lemma_not_option(list[20], option, 1);
    lemma_not_option(list[21], option, 1);
    lemma_not_option(list[22], option, 0);
    lemma_not_option(list[23], option, 1);
    lemma_not_option(list[24], option, 0);
    lemma_not_option(list[25], option, 1);
    lemma_not_option(list[26], option, 0);
    lemma_not_option(list[27], option, 1);
    lemma_not_option(list[28], option, 0);
    lemma_not_option(list[29], option, 1);
    lemma_not_option(list[30], option, 1);
    lemma_not_option(list[31], option, 0);
}

proof fn lemma_without_device(
    image: Seq<char>,
    limits: SandboxLimits,
    name: Seq<char>,
    source: Seq<char>,
)
    requires
        image.len() > 0,
        image[0] == 'g',
    ensures
        lacks_option(sandbox::container_arguments(image, limits, name, source), "--device"@),
{
    let list = sandbox::container_arguments(image, limits, name, source);
    let option = "--device"@;
    reveal_strlit("--device");
    reveal_strlit("--cap-drop=ALL");
    reveal_strlit("--cpus=");
    reveal_strlit("--entrypoint=/usr/local/bin/validate-u9");
    reveal_strlit("--image-volume=ignore");
    reveal_strlit("--ipc=private");
    reveal_strlit("--log-driver=none");
    reveal_strlit("--memory-swap=");
    reveal_strlit("--memory=");
    reveal_strlit("--mount");
    reveal_strlit("--name=");
    reveal_strlit("--network=none");
    reveal_strlit("--pid=private");
    reveal_strlit("--pids-limit=");
    reveal_strlit("--pull=never");
    reveal_strlit("--read-only");
    reveal_strlit("--read-only-tmpfs=false");
    reveal_strlit("--remote=false");
    reveal_strlit("--rm");
    reveal_strlit("--security-opt=no-new-privileges");
    reveal_strlit("--shm-size=16m");
    reveal_strlit("--timeout=");
    reveal_strlit("--tmpfs");
    reveal_strlit("--user=65532:65532");
    reveal_strlit("--workdir=/work");
    reveal_strlit("/dev/shm:rw,nosuid,nodev,noexec,size=16m,mode=1777");
    reveal_strlit("/tmp:rw,nosuid,nodev,noexec,size=16m,mode=1777");
    reveal_strlit("/work:rw,nosuid,nodev,exec,size=");
    reveal_strlit("run");
    reveal_strlit("type=bind,src=");
    lemma_not_option(list[0], option, 2);
    lemma_not_option(list[1], option, 0);
    lemma_not_option(list[2], option, 2);
    lemma_not_option(list[3], option, 2);
    lemma_not_option(list[4], option, 2);
    lemma_not_option(list[5], option, 2);
    lemma_not_option(list[6], option, 2);
    lemma_not_option(list[7], option, 2);
    lemma_not_option(list[8], option, 2);
    lemma_not_option(list[9], option, 2);
    lemma_not_option(list[10], option, 2);
    lemma_not_option(list[11], option, 2);
    lemma_not_option(list[12], option, 2);
    lemma_not_option(list[13], option, 2);
    lemma_not_option(list[14], option, 2);
    lemma_not_option(list[15], option, 2);
    lemma_not_option(list[16], option, 2);
    lemma_not_option(list[17], option, 2);
    lemma_not_option(list[18], option, 2);
    lemma_not_option(list[19], option, 2);
    lemma_not_option(list[20], option, 2);
    lemma_not_option(list[21], option, 2);
    lemma_not_option(list[22], option, 0);
    lemma_not_option(list[23], option, 2);
    lemma_not_option(list[24], option, 0);
    lemma_not_option(list[25], option, 2);
    lemma_not_option(list[26], option, 0);
    lemma_not_option(list[27], option, 2);
    lemma_not_option(list[28], option, 0);
    lemma_not_option(list[29], option, 2);
    lemma_not_option(list[30], option, 2);
    lemma_not_option(list[31], option, 0);
}

proof fn lemma_without_env(
    image: Seq<char>,
    limits: SandboxLimits,
    name: Seq<char>,
    source: Seq<char>,
)
    requires
        image.len() > 0,
        image[0] == 'g',
    ensures
        lacks_option(sandbox::container_arguments(image, limits, name, source), "--env"@),
{
    let list = sandbox::container_arguments(image, limits, name, source);
    let option = "--env"@;
    reveal_strlit("--env");
    reveal_strlit("--cap-drop=ALL");
    reveal_strlit("--cpus=");
    reveal_strlit("--entrypoint=/usr/local/bin/validate-u9");
    reveal_strlit("--image-volume=ignore");
    reveal_strlit("--ipc=private");
    reveal_strlit("--log-driver=none");
    reveal_strlit("--memory-swap=");
    reveal_strlit("--memory=");
    reveal_strlit("--mount");
    reveal_strlit("--name=");
    reveal_strlit("--network=none");
    reveal_strlit("--pid=private");
    reveal_strlit("--pids-limit=");
    reveal_strlit("--pull=never");
    reveal_strlit("--read-only");
    reveal_strlit("--read-only-tmpfs=false");
    reveal_strlit("--remote=false");
    reveal_strlit("--rm");
    reveal_strlit("--security-opt=no-new-privileges");
    reveal_strlit("--shm-size=16m");
    reveal_strlit("--timeout=");
    reveal_strlit("--tmpfs");
    reveal_strlit("--user=65532:65532");
    reveal_strlit("--workdir=/work");
    reveal_strlit("/dev/shm:rw,nosuid,nodev,noexec,size=16m,mode=1777");
    reveal_strlit("/tmp:rw,nosuid,nodev,noexec,size=16m,mode=1777");
    reveal_strlit("/work:rw,nosuid,nodev,exec,size=");
    reveal_strlit("run");
    reveal_strlit("type=bind,src=");
    lemma_not_option(list[0], option, 2);
    lemma_not_option(list[1], option, 0);
    lemma_not_option(list[2], option, 2);
    lemma_not_option(list[3], option, 2);
    lemma_not_option(list[4], option, 2);
    lemma_not_option(list[5], option, 2);
    lemma_not_option(list[6], option, 2);
    lemma_not_option(list[7], option, 2);
    lemma_not_option(list[8], option, 2);
    lemma_not_option(list[9], option, 2);
    lemma_not_option(list[10], option, 2);
    lemma_not_option(list[11], option, 2);
    lemma_not_option(list[12], option, 2);
    lemma_not_option(list[13], option, 2);
    lemma_not_option(list[14], option, 2);
    lemma_not_option(list[15], option, 2);
    lemma_not_option(list[16], option, 2);
    lemma_not_option(list[17], option, 2);
    lemma_not_option(list[18], option, 2);
    lemma_not_option(list[19], option, 2);
    lemma_not_option(list[20], option, 2);
    lemma_not_option(list[21], option, 2);
    lemma_not_option(list[22], option, 0);
    lemma_not_option(list[23], option, 2);
    lemma_not_option(list[24], option, 0);
    lemma_not_option(list[25], option, 2);
    lemma_not_option(list[26], option, 0);
    lemma_not_option(list[27], option, 2);
    lemma_not_option(list[28], option, 0);
    lemma_not_option(list[29], option, 2);
    lemma_not_option(list[30], option, 4);
    lemma_not_option(list[31], option, 0);
}

proof fn lemma_without_publish(
    image: Seq<char>,
    limits: SandboxLimits,
    name: Seq<char>,
    source: Seq<char>,
)
    requires
        image.len() > 0,
        image[0] == 'g',
    ensures
        lacks_option(sandbox::container_arguments(image, limits, name, source), "--publish"@),
{
    let list = sandbox::container_arguments(image, limits, name, source);
    let option = "--publish"@;
    reveal_strlit("--publish");
    reveal_strlit("--cap-drop=ALL");
    reveal_strlit("--cpus=");
    reveal_strlit("--entrypoint=/usr/local/bin/validate-u9");
    reveal_strlit("--image-volume=ignore");
    reveal_strlit("--ipc=private");
    reveal_strlit("--log-driver=none");
    reveal_strlit("--memory-swap=");
    reveal_strlit("--memory=");
    reveal_strlit("--mount");
    reveal_strlit("--name=");
    reveal_strlit("--network=none");
    reveal_strlit("--pid=private");
    reveal_strlit("--pids-limit=");
    reveal_strlit("--pull=never");
    reveal_strlit("--read-only");
    reveal_strlit("--read-only-tmpfs=false");
    reveal_strlit("--remote=false");
    reveal_strlit("--rm");
    reveal_strlit("--security-opt=no-new-privileges");
    reveal_strlit("--shm-size=16m");
    reveal_strlit("--timeout=");
    reveal_strlit("--tmpfs");
    reveal_strlit("--user=65532:65532");
    reveal_strlit("--workdir=/work");
    reveal_strlit("/dev/shm:rw,nosuid,nodev,noexec,size=16m,mode=1777");
    reveal_strlit("/tmp:rw,nosuid,nodev,noexec,size=16m,mode=1777");
    reveal_strlit("/work:rw,nosuid,nodev,exec,size=");
    reveal_strlit("run");
    reveal_strlit("type=bind,src=");
    lemma_not_option(list[0], option, 2);
    lemma_not_option(list[1], option, 0);
    lemma_not_option(list[2], option, 2);
    lemma_not_option(list[3], option, 2);
    lemma_not_option(list[4], option, 4);
    lemma_not_option(list[5], option, 2);
    lemma_not_option(list[6], option, 2);
    lemma_not_option(list[7], option, 2);
    lemma_not_option(list[8], option, 2);
    lemma_not_option(list[9], option, 2);
    lemma_not_option(list[10], option, 2);
    lemma_not_option(list[11], option, 2);
    lemma_not_option(list[12], option, 3);
    lemma_not_option(list[13], option, 2);
    lemma_not_option(list[14], option, 2);
    lemma_not_option(list[15], option, 2);
    lemma_not_option(list[16], option, 2);
    lemma_not_option(list[17], option, 2);
    lemma_not_option(list[18], option, 2);
    lemma_not_option(list[19], option, 3);
    lemma_not_option(list[20], option, 2);
    lemma_not_option(list[21], option, 2);
    lemma_not_option(list[22], option, 0);
    lemma_not_option(list[23], option, 2);
    lemma_not_option(list[24], option, 0);
    lemma_not_option(list[25], option, 2);
    lemma_not_option(list[26], option, 0);
    lemma_not_option(list[27], option, 2);
    lemma_not_option(list[28], option, 0);
    lemma_not_option(list[29], option, 2);
    lemma_not_option(list[30], option, 2);
    lemma_not_option(list[31], option, 0);
}

proof fn lemma_without_userns(
    image: Seq<char>,
    limits: SandboxLimits,
    name: Seq<char>,
    source: Seq<char>,
)
    requires
        image.len() > 0,
        image[0] == 'g',
    ensures
        lacks_option(sandbox::container_arguments(image, limits, name, source), "--userns"@),
{
    let list = sandbox::container_arguments(image, limits, name, source);
    let option = "--userns"@;
    reveal_strlit("--userns");
    reveal_strlit("--cap-drop=ALL");
    reveal_strlit("--cpus=");
    reveal_strlit("--entrypoint=/usr/local/bin/validate-u9");
    reveal_strlit("--image-volume=ignore");
    reveal_strlit("--ipc=private");
    reveal_strlit("--log-driver=none");
    reveal_strlit("--memory-swap=");
    reveal_strlit("--memory=");
    reveal_strlit("--mount");
    reveal_strlit("--name=");
    reveal_strlit("--network=none");
    reveal_strlit("--pid=private");
    reveal_strlit("--pids-limit=");
    reveal_strlit("--pull=never");
    reveal_strlit("--read-only");
    reveal_strlit("--read-only-tmpfs=false");
    reveal_strlit("--remote=false");
    reveal_strlit("--rm");
    reveal_strlit("--security-opt=no-new-privileges");
    reveal_strlit("--shm-size=16m");
    reveal_strlit("--timeout=");
    reveal_strlit("--tmpfs");
    reveal_strlit("--user=65532:65532");
    reveal_strlit("--workdir=/work");
    reveal_strlit("/dev/shm:rw,nosuid,nodev,noexec,size=16m,mode=1777");
    reveal_strlit("/tmp:rw,nosuid,nodev,noexec,size=16m,mode=1777");
    reveal_strlit("/work:rw,nosuid,nodev,exec,size=");
    reveal_strlit("run");
    reveal_strlit("type=bind,src=");
    lemma_not_option(list[0], option, 2);
    lemma_not_option(list[1], option, 0);
    lemma_not_option(list[2], option, 2);
    lemma_not_option(list[3], option, 2);
    lemma_not_option(list[4], option, 2);
    lemma_not_option(list[5], option, 2);
    lemma_not_option(list[6], option, 2);
    lemma_not_option(list[7], option, 2);
    lemma_not_option(list[8], option, 2);
    lemma_not_option(list[9], option, 2);
    lemma_not_option(list[10], option, 2);
    lemma_not_option(list[11], option, 6);
    lemma_not_option(list[12], option, 2);
    lemma_not_option(list[13], option, 2);
    lemma_not_option(list[14], option, 2);
    lemma_not_option(list[15], option, 2);
    lemma_not_option(list[16], option, 2);
    lemma_not_option(list[17], option, 2);
    lemma_not_option(list[18], option, 2);
    lemma_not_option(list[19], option, 2);
    lemma_not_option(list[20], option, 2);
    lemma_not_option(list[21], option, 2);
    lemma_not_option(list[22], option, 0);
    lemma_not_option(list[23], option, 2);
    lemma_not_option(list[24], option, 0);
    lemma_not_option(list[25], option, 2);
    lemma_not_option(list[26], option, 0);
    lemma_not_option(list[27], option, 2);
    lemma_not_option(list[28], option, 0);
    lemma_not_option(list[29], option, 2);
    lemma_not_option(list[30], option, 2);
    lemma_not_option(list[31], option, 0);
}

proof fn lemma_without_init(
    image: Seq<char>,
    limits: SandboxLimits,
    name: Seq<char>,
    source: Seq<char>,
)
    requires
        image.len() > 0,
        image[0] == 'g',
    ensures
        lacks_option(sandbox::container_arguments(image, limits, name, source), "--init"@),
{
    let list = sandbox::container_arguments(image, limits, name, source);
    let option = "--init"@;
    reveal_strlit("--init");
    reveal_strlit("--cap-drop=ALL");
    reveal_strlit("--cpus=");
    reveal_strlit("--entrypoint=/usr/local/bin/validate-u9");
    reveal_strlit("--image-volume=ignore");
    reveal_strlit("--ipc=private");
    reveal_strlit("--log-driver=none");
    reveal_strlit("--memory-swap=");
    reveal_strlit("--memory=");
    reveal_strlit("--mount");
    reveal_strlit("--name=");
    reveal_strlit("--network=none");
    reveal_strlit("--pid=private");
    reveal_strlit("--pids-limit=");
    reveal_strlit("--pull=never");
    reveal_strlit("--read-only");
    reveal_strlit("--read-only-tmpfs=false");
    reveal_strlit("--remote=false");
    reveal_strlit("--rm");
    reveal_strlit("--security-opt=no-new-privileges");
    reveal_strlit("--shm-size=16m");
    reveal_strlit("--timeout=");
    reveal_strlit("--tmpfs");
    reveal_strlit("--user=65532:65532");
    reveal_strlit("--workdir=/work");
    reveal_strlit("/dev/shm:rw,nosuid,nodev,noexec,size=16m,mode=1777");
    reveal_strlit("/tmp:rw,nosuid,nodev,noexec,size=16m,mode=1777");
    reveal_strlit("/work:rw,nosuid,nodev,exec,size=");
    reveal_strlit("run");
    reveal_strlit("type=bind,src=");
    lemma_not_option(list[0], option, 2);
    lemma_not_option(list[1], option, 0);
    lemma_not_option(list[2], option, 2);
    lemma_not_option(list[3], option, 2);
    lemma_not_option(list[4], option, 2);
    lemma_not_option(list[5], option, 3);
    lemma_not_option(list[6], option, 2);
    lemma_not_option(list[7], option, 2);
    lemma_not_option(list[8], option, 2);
    lemma_not_option(list[9], option, 2);
    lemma_not_option(list[10], option, 2);
    lemma_not_option(list[11], option, 2);
    lemma_not_option(list[12], option, 2);
    lemma_not_option(list[13], option, 3);
    lemma_not_option(list[14], option, 2);
    lemma_not_option(list[15], option, 2);
    lemma_not_option(list[16], option, 2);
    lemma_not_option(list[17], option, 2);
    lemma_not_option(list[18], option, 2);
    lemma_not_option(list[19], option, 2);
    lemma_not_option(list[20], option, 2);
    lemma_not_option(list[21], option, 2);
    lemma_not_option(list[22], option, 0);
    lemma_not_option(list[23], option, 2);
    lemma_not_option(list[24], option, 0);
    lemma_not_option(list[25], option, 2);
    lemma_not_option(list[26], option, 0);
    lemma_not_option(list[27], option, 2);
    lemma_not_option(list[28], option, 0);
    lemma_not_option(list[29], option, 2);
    lemma_not_option(list[30], option, 2);
    lemma_not_option(list[31], option, 0);
}

/// Every accepted invocation runs the validator in isolation: the container gets exactly one value
/// for its program, network, user, privileges, namespaces, ceilings, root file system and mount,
/// and none of the options that would widen it. Scratch space lies on three bounded file systems.
pub open spec fn is_isolated(
    list: Seq<Seq<char>>,
    image: Seq<char>,
    limits: SandboxLimits,
    name: Seq<char>,
    source: Seq<char>,
) -> bool {
    &&& sole_option(list, "--remote"@, "--remote=false"@)
    &&& sole_option(list, "--rm"@, "--rm"@)
    &&& sole_option(list, "--name"@, "--name="@ + name)
    &&& sole_option(list, "--pull"@, "--pull=never"@)
    &&& sole_option(list, "--image-volume"@, "--image-volume=ignore"@)
    &&& sole_option(list, "--network"@, "--network=none"@)
    &&& sole_option(list, "--read-only-tmpfs"@, "--read-only-tmpfs=false"@)
    &&& sole_option(list, "--cap-drop"@, "--cap-drop=ALL"@)
    &&& sole_option(list, "--security-opt"@, "--security-opt=no-new-privileges"@)
    &&& sole_option(list, "--user"@, "--user=65532:65532"@)
    &&& sole_option(list, "--pid="@, "--pid=private"@)
    &&& sole_option(list, "--ipc"@, "--ipc=private"@)
    &&& sole_option(list, "--log-driver"@, "--log-driver=none"@)
    &&& sole_option(list, "--timeout"@, "--timeout="@ + number::decimal(limits.timeout_seconds as nat))
    &&& sole_option(list, "--memory="@, "--memory="@ + number::decimal(limits.memory_mib as nat) + "m"@)
    &&& sole_option(list, "--memory-swap"@, "--memory-swap="@ + number::decimal(limits.memory_mib as nat) + "m"@)
    &&& sole_option(list, "--cpus"@, "--cpus="@ + number::decimal(limits.cpus as nat))
    &&& sole_option(list, "--pids-limit"@, "--pids-limit="@ + number::decimal(limits.pids as nat))
    &&& sole_option(list, "--shm-size"@, "--shm-size=16m"@)
    &&& sole_option(list, "--mount"@, "--mount"@)
    &&& sole_option(list, "--workdir"@, "--workdir=/work"@)
    &&& sole_option(list, "--entrypoint"@, "--entrypoint=/usr/local/bin/validate-u9"@)
    &&& lacks_option(list, "--privileged"@)
    &&& lacks_option(list, "--cap-add"@)
    &&& lacks_option(list, "--volume"@)
    &&& lacks_option(list, "-v"@)
    &&& lacks_option(list, "--device"@)
    &&& lacks_option(list, "--env"@)
    &&& lacks_option(list, "--publish"@)
    &&& lacks_option(list, "--userns"@)
    &&& lacks_option(list, "--init"@)
    &&& list.contains("--read-only"@)
    &&& list.len() == 32
    &&& list[0] == "--remote=false"@
    &&& list[1] == "run"@
    &&& list[21] == "--tmpfs"@ && list[22] == "/work:rw,nosuid,nodev,exec,size="@
        + number::decimal((limits.scratch_mib - 32) as nat) + "m,mode=1777"@
    &&& list[23] == "--tmpfs"@ && list[24] == "/tmp:rw,nosuid,nodev,noexec,size=16m,mode=1777"@
    &&& list[25] == "--tmpfs"@ && list[26] == "/dev/shm:rw,nosuid,nodev,noexec,size=16m,mode=1777"@
    &&& list[27] == "--mount"@ && list[28] == "type=bind,src="@ + source + ",dst=/source,ro=true"@
    &&& list[31] == image
}

/// The container invocation is isolated, whatever its name, source and ceilings.
pub proof fn accepted_arguments_isolate_the_validator(
    image: Seq<char>,
    limits: SandboxLimits,
    name: Seq<char>,
    source: Seq<char>,
)
    requires
        sandbox::is_validator_image(image),
    ensures
        is_isolated(sandbox::container_arguments(image, limits, name, source), image, limits, name, source),
{
    let list = sandbox::container_arguments(image, limits, name, source);
    let front = "ghcr.io/bodhispace-xyz/ai-sre-validator@sha256:"@;
    reveal_strlit("ghcr.io/bodhispace-xyz/ai-sre-validator@sha256:");
    assert(image.subrange(0, front.len() as int)[0] == image[0]);
    lemma_option_remote(image, limits, name, source);
    lemma_option_rm(image, limits, name, source);
    lemma_option_name(image, limits, name, source);
    lemma_option_pull(image, limits, name, source);
    lemma_option_image_volume(image, limits, name, source);
    lemma_option_network(image, limits, name, source);
    lemma_option_read_only_tmpfs(image, limits, name, source);
    lemma_option_cap_drop(image, limits, name, source);
    lemma_option_security_opt(image, limits, name, source);
    lemma_option_user(image, limits, name, source);
    lemma_option_pid(image, limits, name, source);
    lemma_option_ipc(image, limits, name, source);
    lemma_option_log_driver(image, limits, name, source);
    lemma_option_timeout(image, limits, name, source);
    lemma_option_memory(image, limits, name, source);
    lemma_option_memory_swap(image, limits, name, source);
    lemma_option_cpus(image, limits, name, source);
    lemma_option_pids_limit(image, limits, name, source);
    lemma_option_shm_size(image, limits, name, source);
    lemma_option_mount(image, limits, name, source);
    lemma_option_workdir(image, limits, name, source);
    lemma_option_entrypoint(image, limits, name, source);
    lemma_without_privileged(image, limits, name, source);
    lemma_without_cap_add(image, limits, name, source);
    lemma_without_volume(image, limits, name, source);
    lemma_without_v(image, limits, name, source);
    lemma_without_device(image, limits, name, source);
    lemma_without_env(image, limits, name, source);
    lemma_without_publish(image, limits, name, source);
    lemma_without_userns(image, limits, name, source);
    lemma_without_init(image, limits, name, source);
    assert(list[7] == "--read-only"@);
}

} // verus!
