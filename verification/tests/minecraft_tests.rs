use substrate_mc::error::SubstrateError;
use substrate_mc::minecraft::{
    get_config, server_script, JavaFlags, LoaderConfig, LoaderEntry, MinecraftConfig, VersionEntry,
};

fn sample() -> MinecraftConfig {
    MinecraftConfig {
        versions: vec![VersionEntry {
            version: "1.21.11".to_string(),
            loaders: vec![LoaderEntry {
                loader: "vanilla".to_string(),
                config: LoaderConfig {
                    url: "https://example.com/server.jar".to_string(),
                    java_version: "21".to_string(),
                },
            }],
        }],
    }
}

#[test]
fn lookup_finds_loader() {
    let lc = get_config(&sample(), "1.21.11", "vanilla").unwrap();
    assert_eq!(lc.url, "https://example.com/server.jar");
    assert_eq!(lc.java_version, "21");
}

#[test]
fn lookup_reports_missing_version_then_loader() {
    let e = get_config(&sample(), "1.20", "vanilla").unwrap_err();
    assert!(matches!(e, SubstrateError::NotFound { resource } if resource == "Could not find minecraft version in minecraft.json"));
    let e = get_config(&sample(), "1.21.11", "fabric").unwrap_err();
    assert!(matches!(e, SubstrateError::NotFound { resource } if resource == "Could not find minecraft loader in minecraft.json"));
}

#[test]
fn normal_script() {
    assert_eq!(
        server_script(JavaFlags::Normal, "21"),
        "#!/usr/bin/env bash\n../../runtime/java-21/bin/java -jar server.jar --nogui\n"
    );
}

#[test]
fn aikars_script() {
    let s = server_script(JavaFlags::Aikars, "17");
    assert!(s.starts_with("#!/usr/bin/env bash\n../../runtime/java-17/bin/java -XX:+AlwaysPreTouch -XX:+DisableExplicitGC"));
    assert!(s.ends_with("-Daikars.new.flags=true -jar server.jar --nogui"));
    assert_eq!(s, format!("#!/usr/bin/env bash\n../../runtime/java-{}/bin/java -XX:+AlwaysPreTouch -XX:+DisableExplicitGC -XX:+ParallelRefProcEnabled -XX:+PerfDisableSharedMem -XX:+UnlockExperimentalVMOptions -XX:+UseG1GC -XX:G1HeapRegionSize=8M -XX:G1HeapWastePercent=5 -XX:G1MaxNewSizePercent=40 -XX:G1MixedGCCountTarget=4 -XX:G1MixedGCLiveThresholdPercent=90 -XX:G1NewSizePercent=30 -XX:G1RSetUpdatingPauseTimePercent=5 -XX:G1ReservePercent=20 -XX:InitiatingHeapOccupancyPercent=15 -XX:MaxGCPauseMillis=200 -XX:MaxTenuringThreshold=1 -XX:SurvivorRatio=32 -Dusing.aikars.flags=https://mcflags.emc.gs -Daikars.new.flags=true -jar server.jar --nogui", "17"));
}
