use ffmpeg_autoencoder::analysis::web_search::{encode, TitleMethod, WebSearchClassifier};
use ffmpeg_autoencoder::config::types::ContentType;

#[test]
fn test_title_extraction_tv_show() {
    let classifier = WebSearchClassifier::default();
    let extraction = classifier.extract_title_from_filename("Game.of.Thrones.S01E01.720p.mkv");

    assert_eq!(extraction.title, "game of thrones");
    assert_eq!(extraction.method.as_str(), "tv_show_pattern");
    assert!(extraction.method.confidence_percent() > 80);
}

#[test]
fn test_title_extraction_movie_year() {
    let classifier = WebSearchClassifier::default();
    let extraction =
        classifier.extract_title_from_filename("Blade.Runner.2049.1080p.BluRay.x265.mkv");

    assert_eq!(extraction.title, "blade runner");
    assert_eq!(extraction.method.as_str(), "movie_year_pattern");
    assert!(extraction.method.confidence_percent() > 80);
}

#[test]
fn test_keyword_classification() {
    let classifier = WebSearchClassifier::default();
    let result = classifier.classify_by_keywords("spirited away anime studio ghibli");

    assert_eq!(result.content_type, ContentType::Anime);
    assert!(result.confidence_percent() > 50);
}

#[test]
fn test_quality_indicator_removal() {
    let classifier = WebSearchClassifier::default();
    let extraction =
        classifier.extract_title_from_filename("Movie.Title.2023.2160p.4K.HDR.x265.HEVC.mkv");

    assert_eq!(extraction.title, "movie title");
    assert!(!extraction.title.contains("2160p"));
    assert!(!extraction.title.contains("x265"));
}

#[test]
fn known_title_found_from_filename() {
    let mut classifier = WebSearchClassifier::default();
    classifier.simulation_mode = true;
    let extraction = classifier.extract_title_from_filename("Spirited.Away.2001.1080p.mkv");
    assert_eq!(extraction.title, "spirited away");
    assert_eq!(classifier.lookup_known_title(&extraction.title), Some(ContentType::Anime));
    assert_eq!(classifier.lookup_known_title("an unknown film"), None);
}

#[test]
fn filename_without_pattern_uses_first_part() {
    let classifier = WebSearchClassifier::default();
    let extraction = classifier.extract_title_from_filename("Some_Home-Video.mkv");
    assert_eq!(extraction.method, TitleMethod::FilenameExtraction);
    assert_eq!(extraction.title, "some home video");
    assert_eq!(extraction.method.confidence_percent(), 60);
}

#[test]
fn empty_filename_fails() {
    let classifier = WebSearchClassifier::default();
    let extraction = classifier.extract_title_from_filename("");
    assert_eq!(extraction.method, TitleMethod::Failed);
    assert_eq!(extraction.title, "");
    assert_eq!(extraction.method.confidence_percent(), 0);
}

#[test]
fn keyword_scores_pick_the_last_best_and_film_by_default() {
    let classifier = WebSearchClassifier::default();
    let none = classifier.classify_by_keywords("a quiet drama");
    assert_eq!(none.content_type, ContentType::Film);
    assert_eq!(none.score_halves, 0);
    assert_eq!(none.confidence_percent(), 30);

    let action = classifier.classify_by_keywords("an action thriller with explosions");
    assert_eq!(action.content_type, ContentType::Action);
    assert!(action.score_halves >= 4);
}

#[test]
fn url_encoding_of_queries() {
    assert_eq!(encode("Spirited Away"), "Spirited+Away");
    assert_eq!(encode("a-b_c.d~e"), "a-b_c.d~e");
    assert_eq!(encode("R&D/x"), "R%26D%2Fx");
}

#[test]
fn search_urls_are_encoded() {
    assert_eq!(
        WebSearchClassifier::tmdb_search_url("toy story"),
        "https://api.themoviedb.org/3/search/multi?api_key=demo&query=toy+story"
    );
    assert_eq!(
        WebSearchClassifier::omdb_search_url("dune"),
        "http://www.omdbapi.com/?apikey=demo&t=dune&plot=short"
    );
    assert_eq!(
        WebSearchClassifier::duckduckgo_search_url("akira"),
        "https://api.duckduckgo.com/?q=akira+movie&format=json&no_redirect=1"
    );
    let queries = WebSearchClassifier::search_queries("dune");
    assert_eq!(queries, vec!["dune anime", "dune movie", "dune film", "dune animation"]);
}

#[test]
fn clean_title_replaces_separators() {
    let classifier = WebSearchClassifier::default();
    assert_eq!(classifier.clean_title(" the_big-short.film "), "the big short film");
}
