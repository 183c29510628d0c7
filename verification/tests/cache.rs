use eveicongenerator::cache::{
    cached_file_path, check_download_directory, check_server, file_url, index_file_name, index_url, keeps_top_level, locate, normalized,
    read_client_version, CacheError, CacheReader, IndexEntry, Origin, ResourceIndex,
};

const INDEX: &str = "res:/UI/Texture\\Icons/1.png,ab/ab12_3,aabbcc,120,90,33188\r\n\n   \napp:/bin64/x.pyd,cd/cd34,ddeeff,+7,7\n";

#[test]
fn keys_are_normalized() {
    assert_eq!(normalized("Res:\\UI/Ä.PNG"), "res:/ui/Ä.png");
    assert_eq!(normalized(""), "");
}

#[test]
fn index_file_is_read_line_by_line() {
    let mut index = ResourceIndex::new();
    IndexEntry::load_index(INDEX, &mut index).unwrap();
    assert!(index.has_resource("res:/ui/texture/icons/1.png"));
    assert!(index.has_resource("RES:/UI/TEXTURE/ICONS/1.PNG"));
    assert!(index.has_resource("res:\\ui\\texture\\icons\\1.png"));
    assert!(!index.has_resource("res:/ui/texture/icons/2.png"));
    assert_eq!(index.hash_of("res:/ui/texture/icons/1.png").unwrap(), "aabbcc");
    let entry = index.entry_of("app:/bin64/x.pyd").unwrap();
    assert_eq!(entry.path, "cd/cd34");
    assert_eq!(entry.md5, "ddeeff");
    assert_eq!(entry.size, 7);
    assert_eq!(entry.compressed, 7);
    let first = index.entry_of("res:/ui/texture/icons/1.png").unwrap();
    assert_eq!((first.size, first.compressed), (120, 90));
}

#[test]
fn later_lines_replace_earlier_ones() {
    let mut index = ResourceIndex::new();
    IndexEntry::load_index("a,f/one,h1,1,1\nA,f/two,h2,2,2\n", &mut index).unwrap();
    assert_eq!(index.hash_of("a").unwrap(), "h2");
}

#[test]
fn malformed_line_ends_the_reading() {
    let mut index = ResourceIndex::new();
    let r = IndexEntry::load_index("a,f/one,h1,1,1\nb,f/two,h2,x,2\nc,f/three,h3,3,3\n", &mut index);
    assert!(matches!(r, Err(CacheError::MalformedIndexFile)));
    assert!(index.has_resource("a"));
    assert!(!index.has_resource("b"));
    assert!(!index.has_resource("c"));
    let mut other = ResourceIndex::new();
    assert!(matches!(
        IndexEntry::load_index("a,f/one,h1,1", &mut other),
        Err(CacheError::MalformedIndexFile)
    ));
    assert!(matches!(
        IndexEntry::load_index("a,f/one,h1,1,2\r", &mut other),
        Err(CacheError::MalformedIndexFile)
    ));
}

#[test]
fn unknown_resource_is_reported_by_its_normalized_key() {
    let index = ResourceIndex::new();
    match index.hash_of("Res:\\X.png") {
        Err(CacheError::ResourceNotFound(key)) => assert_eq!(key, "res:/x.png"),
        other => panic!("unexpected: {:?}", other),
    }
    assert_eq!(
        CacheError::ResourceNotFound("res:/x.png".to_string()).message(),
        "resource not found: `res:/x.png`"
    );
    assert_eq!(CacheError::MalformedIndexFile.message(), "malformed index file");
}

#[test]
fn client_version_from_start_file() {
    assert_eq!(read_client_version("[main]\r\nbuild = 2345678\r\nbuild = 1\r\n").unwrap(), "2345678");
    assert_eq!(read_client_version("build = ").unwrap(), "");
    assert!(matches!(read_client_version("[main]\nbuild=1\n"), Err(CacheError::NotGameInstall)));
    assert!(matches!(read_client_version(""), Err(CacheError::NotGameInstall)));
}

#[test]
fn reader_answers_from_its_index() {
    let mut index = ResourceIndex::new();
    IndexEntry::load_index(INDEX, &mut index).unwrap();
    let reader = CacheReader::new("C:/game/ResFiles", "build = 42\n", index).unwrap();
    assert_eq!(reader.client_version(), "42");
    assert_eq!(reader.res_dir(), "C:/game/ResFiles");
    assert!(reader.has_resource("app:/bin64/x.pyd"));
    assert_eq!(reader.hash_of("app:/bin64/x.pyd").unwrap(), "ddeeff");
    assert!(reader.hash_of("nope").is_err());
    assert!(reader.index().has_resource("app:/bin64/x.pyd"));
    assert!(matches!(
        CacheReader::new("x", "nothing", ResourceIndex::new()),
        Err(CacheError::NotGameInstall)
    ));
}

#[test]
fn index_lists_its_keys_in_order() {
    let mut index = ResourceIndex::new();
    IndexEntry::load_index("B,f/one,h1,1,1\na,f/two,h2,2,2\nb,f/three,h3,3,3\n", &mut index).unwrap();
    assert_eq!(index.resource_count(), 2);
    assert_eq!(index.resource_at(0), "b");
    assert_eq!(index.resource_at(1), "a");
    assert_eq!(index.entry_of("b").unwrap().path, "f/three");
}

#[test]
fn downloads_are_named_after_the_client_version() {
    assert_eq!(index_file_name("123"), "eveonline_123.txt");
    assert_eq!(index_url("123", false), "https://binaries.eveonline.com/eveonline_123.txt");
    assert_eq!(index_url("123", true), "https://binaries.eveonline.com/eveonlinemacOS_123.txt");
    assert_eq!(file_url(Origin::App, "ab/cd"), "https://binaries.eveonline.com/ab/cd");
    assert_eq!(file_url(Origin::Res, "ab/cd"), "https://resources.eveonline.com/ab/cd");
    assert_eq!(cached_file_path("AB", "Cd_1.PNG"), "ab/cd_1.png");
}

#[test]
fn resources_are_found_in_the_client_index_first() {
    let mut app = ResourceIndex::new();
    let mut res = ResourceIndex::new();
    IndexEntry::load_index("x,app/x,h1,1,1\n", &mut app).unwrap();
    IndexEntry::load_index("x,res/x,h2,1,1\ny,res/y,h3,1,1\n", &mut res).unwrap();
    let (origin, entry) = locate(&app, &res, "X").unwrap();
    assert_eq!((origin, entry.path.as_str()), (Origin::App, "app/x"));
    let (origin, entry) = locate(&app, &res, "y").unwrap();
    assert_eq!((origin, entry.path.as_str()), (Origin::Res, "res/y"));
    assert!(matches!(locate(&app, &res, "Z"), Err(CacheError::ResourceNotFound(k)) if k == "z"));
}

#[test]
fn purge_keeps_the_index_file_and_named_files() {
    let keep = vec!["sde.zip".to_string(), "checksum.txt".to_string()];
    assert!(keeps_top_level("eveonline_123.txt", "123", &keep));
    assert!(keeps_top_level("sde.zip", "123", &keep));
    assert!(keeps_top_level("checksum.txt", "123", &keep));
    assert!(!keeps_top_level("eveonline_122.txt", "123", &keep));
    assert!(!keeps_top_level("other", "123", &Vec::new()));
}

#[test]
fn downloads_refuse_game_installs_and_protected_servers() {
    assert!(check_download_directory(false, false).is_ok());
    assert!(matches!(check_download_directory(true, false), Err(CacheError::DownloadIntoGameInstall)));
    assert!(matches!(check_download_directory(false, true), Err(CacheError::DownloadIntoGameInstall)));
    assert!(check_server(None).is_ok());
    assert!(check_server(Some(false)).is_ok());
    assert!(matches!(check_server(Some(true)), Err(CacheError::GameServerProtected)));
}
