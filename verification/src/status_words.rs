//! The words shown in the status line while the agent works, and how one is picked.

use rand::Rng;
use vstd::prelude::*;

use crate::text::{key_less, lemma_key_less_asymmetric, lemma_key_less_transitive};

verus! {

/// The status shown when there is no word to pick from.
pub const DEFAULT_WORKING_STATUS: &'static str = "Working";

/// Seconds between two changes of the status word.
pub const WORKING_STATUS_ROTATION_INTERVAL_SECS: u64 = 10;

/// The built-in status words, in order.
pub open spec fn working_status_word_list() -> Seq<Seq<char>> {
    Seq::empty()
        .push("Accomplishing"@)
        .push("Actioning"@)
        .push("Actualizing"@)
        .push("Architecting"@)
        .push("Baking"@)
        .push("Beaming"@)
        .push("Beboppin'"@)
        .push("Befuddling"@)
        .push("Billowing"@)
        .push("Blanching"@)
        .push("Bloviating"@)
        .push("Boogieing"@)
        .push("Boondoggling"@)
        .push("Booping"@)
        .push("Bootstrapping"@)
        .push("Brewing"@)
        .push("Bunning"@)
        .push("Burrowing"@)
        .push("Calculating"@)
        .push("Canoodling"@)
        .push("Caramelizing"@)
        .push("Cascading"@)
        .push("Catapulting"@)
        .push("Cerebrating"@)
        .push("Channeling"@)
        .push("Channelling"@)
        .push("Choreographing"@)
        .push("Churning"@)
        .push("Clauding"@)
        .push("Coalescing"@)
        .push("Cogitating"@)
        .push("Combobulating"@)
        .push("Composing"@)
        .push("Computing"@)
        .push("Concocting"@)
        .push("Considering"@)
        .push("Contemplating"@)
        .push("Cooking"@)
        .push("Crafting"@)
        .push("Creating"@)
        .push("Crunching"@)
        .push("Crystallizing"@)
        .push("Cultivating"@)
        .push("Deciphering"@)
        .push("Deliberating"@)
        .push("Determining"@)
        .push("Dilly-dallying"@)
        .push("Discombobulating"@)
        .push("Doing"@)
        .push("Doodling"@)
        .push("Drizzling"@)
        .push("Ebbing"@)
        .push("Effecting"@)
        .push("Elucidating"@)
        .push("Embellishing"@)
        .push("Enchanting"@)
        .push("Envisioning"@)
        .push("Evaporating"@)
        .push("Fermenting"@)
        .push("Fiddle-faddling"@)
        .push("Finagling"@)
        .push("Flamb\u{e9}ing"@)
        .push("Flibbertigibbeting"@)
        .push("Flowing"@)
        .push("Flummoxing"@)
        .push("Fluttering"@)
        .push("Forging"@)
        .push("Forming"@)
        .push("Frolicking"@)
        .push("Frosting"@)
        .push("Gallivanting"@)
        .push("Galloping"@)
        .push("Garnishing"@)
        .push("Generating"@)
        .push("Gesticulating"@)
        .push("Germinating"@)
        .push("Gitifying"@)
        .push("Grooving"@)
        .push("Gusting"@)
        .push("Harmonizing"@)
        .push("Hashing"@)
        .push("Hatching"@)
        .push("Herding"@)
        .push("Honking"@)
        .push("Hullaballooing"@)
        .push("Hyperspacing"@)
        .push("Ideating"@)
        .push("Imagining"@)
        .push("Improvising"@)
        .push("Incubating"@)
        .push("Inferring"@)
        .push("Infusing"@)
        .push("Ionizing"@)
        .push("Jitterbugging"@)
        .push("Julienning"@)
        .push("Kneading"@)
        .push("Leavening"@)
        .push("Levitating"@)
        .push("Lollygagging"@)
        .push("Manifesting"@)
        .push("Marinating"@)
        .push("Meandering"@)
        .push("Metamorphosing"@)
        .push("Misting"@)
        .push("Moonwalking"@)
        .push("Moseying"@)
        .push("Mulling"@)
        .push("Mustering"@)
        .push("Musing"@)
        .push("Nebulizing"@)
        .push("Nesting"@)
        .push("Newspapering"@)
        .push("Noodling"@)
        .push("Nucleating"@)
        .push("Orbiting"@)
        .push("Orchestrating"@)
        .push("Osmosing"@)
        .push("Perambulating"@)
        .push("Percolating"@)
        .push("Perusing"@)
        .push("Philosophising"@)
        .push("Photosynthesizing"@)
        .push("Pollinating"@)
        .push("Pondering"@)
        .push("Pontificating"@)
        .push("Pouncing"@)
        .push("Precipitating"@)
        .push("Prestidigitating"@)
        .push("Processing"@)
        .push("Proofing"@)
        .push("Propagating"@)
        .push("Puttering"@)
        .push("Puzzling"@)
        .push("Quantumizing"@)
        .push("Razzle-dazzling"@)
        .push("Razzmatazzing"@)
        .push("Recombobulating"@)
        .push("Reticulating"@)
        .push("Roosting"@)
        .push("Ruminating"@)
        .push("Saut\u{e9}ing"@)
        .push("Scampering"@)
        .push("Schlepping"@)
        .push("Scurrying"@)
        .push("Seasoning"@)
        .push("Shenaniganing"@)
        .push("Shimmying"@)
        .push("Simmering"@)
        .push("Skedaddling"@)
        .push("Sketching"@)
        .push("Slithering"@)
        .push("Smooshing"@)
        .push("Sock-hopping"@)
        .push("Spelunking"@)
        .push("Spinning"@)
        .push("Sprouting"@)
        .push("Stewing"@)
        .push("Sublimating"@)
        .push("Swirling"@)
        .push("Swooping"@)
        .push("Symbioting"@)
        .push("Synthesizing"@)
        .push("Tempering"@)
        .push("Thinking"@)
        .push("Thundering"@)
        .push("Tinkering"@)
        .push("Tomfoolering"@)
        .push("Topsy-turvying"@)
        .push("Transfiguring"@)
        .push("Transmuting"@)
        .push("Twisting"@)
        .push("Undulating"@)
        .push("Unfurling"@)
        .push("Unravelling"@)
        .push("Vibing"@)
        .push("Waddling"@)
        .push("Wandering"@)
        .push("Warping"@)
        .push("Whatchamacalliting"@)
        .push("Whirlpooling"@)
        .push("Whirring"@)
        .push("Whisking"@)
        .push("Wibbling"@)
        .push("Working"@)
        .push("Wrangling"@)
        .push("Zesting"@)
        .push("Zigzagging"@)
}

/// The views of a list of strings.
pub open spec fn string_views(words: Seq<String>) -> Seq<Seq<char>> {
    words.map_values(|w: String| w@)
}

/// `a` orders before or equals `b`.
pub open spec fn key_at_most(a: Seq<char>, b: Seq<char>) -> bool {
    a == b || key_less(a, b)
}

/// Whether the words are non-empty and pairwise different.
pub open spec fn distinct_nonempty(words: Seq<Seq<char>>) -> bool {
    &&& forall|i: int| 0 <= i < words.len() ==> (#[trigger] words[i]).len() > 0
    &&& forall|i: int, j: int|
        0 <= i < j < words.len() ==> #[trigger] words[i] != #[trigger] words[j]
}

/// The words are distinct and non-empty, none orders after `top`, and none but
/// the last orders after `below`.
spec fn bounded_words(words: Seq<Seq<char>>, top: Seq<char>, below: Seq<char>) -> bool {
    &&& distinct_nonempty(words)
    &&& forall|i: int| 0 <= i < words.len() ==> key_at_most(#[trigger] words[i], top)
    &&& forall|i: int| 0 <= i < words.len() - 1 ==> key_at_most(#[trigger] words[i], below)
}

proof fn lemma_at_most_less(a: Seq<char>, b: Seq<char>, c: Seq<char>)
    requires
        key_at_most(a, b),
        key_less(b, c),
    ensures
        key_less(a, c),
        a != c,
{
    lemma_key_less_transitive(a, b, c);
    lemma_key_less_asymmetric(a, c);
}

/// Appends a copy of `word`, which orders after every word so far.
fn push_word_above(
    words: &mut Vec<String>,
    word: &str,
    Ghost(top): Ghost<Seq<char>>,
    Ghost(below): Ghost<Seq<char>>,
)
    requires
        bounded_words(string_views(old(words)@), top, below),
        key_less(top, word@),
        word@.len() > 0,
    ensures
        string_views(final(words)@) == string_views(old(words)@).push(word@),
        bounded_words(string_views(final(words)@), word@, top),
{
    let ghost old_views = string_views(words@);
    words.push(String::from_str(word));
    assert(string_views(words@) =~= old_views.push(word@));
    let ghost v = string_views(words@);
    assert forall|i: int| 0 <= i < old_views.len() implies v[i] != word@ && key_less(
        v[i],
        word@,
    ) by {
        assert(v[i] == old_views[i]);
        lemma_at_most_less(old_views[i], top, word@);
    }
    assert forall|i: int, j: int| 0 <= i < j < v.len() implies #[trigger] v[i] != #[trigger] v[j] by {
        if j < old_views.len() {
            assert(v[i] == old_views[i] && v[j] == old_views[j]);
        }
    }
    assert forall|i: int| 0 <= i < v.len() implies key_at_most(#[trigger] v[i], word@) by {}
    assert forall|i: int| 0 <= i < v.len() - 1 implies key_at_most(#[trigger] v[i], top) by {
        assert(v[i] == old_views[i]);
    }
}

/// Appends a copy of `word`, which orders before the last word so far but
/// after all the others.
fn push_word_below_last(
    words: &mut Vec<String>,
    word: &str,
    Ghost(top): Ghost<Seq<char>>,
    Ghost(below): Ghost<Seq<char>>,
)
    requires
        bounded_words(string_views(old(words)@), top, below),
        string_views(old(words)@).len() > 0,
        key_less(below, word@),
        key_less(word@, string_views(old(words)@).last()),
        key_at_most(word@, top),
        word@.len() > 0,
    ensures
        string_views(final(words)@) == string_views(old(words)@).push(word@),
        bounded_words(string_views(final(words)@), top, top),
{
    let ghost old_views = string_views(words@);
    words.push(String::from_str(word));
    assert(string_views(words@) =~= old_views.push(word@));
    let ghost v = string_views(words@);
    let ghost n = old_views.len() as int;
    proof {
        lemma_key_less_asymmetric(word@, old_views.last());
    }
    assert forall|i: int| 0 <= i < n implies v[i] != word@ by {
        assert(v[i] == old_views[i]);
        if i < n - 1 {
            lemma_at_most_less(old_views[i], below, word@);
        }
    }
    assert forall|i: int, j: int| 0 <= i < j < v.len() implies #[trigger] v[i] != #[trigger] v[j] by {
        if j < n {
            assert(v[i] == old_views[i] && v[j] == old_views[j]);
        }
    }
    assert forall|i: int| 0 <= i < v.len() implies key_at_most(#[trigger] v[i], top) by {
        if i < n {
            assert(v[i] == old_views[i]);
        }
    }
}

/// The built-in status words.
pub fn load_working_status_words() -> (words: Vec<String>)
    ensures
        string_views(words@) == working_status_word_list(),
        distinct_nonempty(string_views(words@)),
{
    let mut words: Vec<String> = Vec::new();
    assert(string_views(words@) =~= Seq::<Seq<char>>::empty());
    assert(key_less(Seq::<char>::empty(), "Accomplishing"@) && "Accomplishing"@.len() > 0) by {
        reveal_strlit("Accomplishing");
    }
    push_word_above(
        &mut words,
        "Accomplishing",
        Ghost(Seq::<char>::empty()),
        Ghost(Seq::<char>::empty()),
    );
    assert(key_less("Accomplishing"@, "Actioning"@) && "Actioning"@.len() > 0) by {
        reveal_strlit("Actioning");
        reveal_strlit("Accomplishing");
        reveal_with_fuel(key_less, 4);
    }
    push_word_above(&mut words, "Actioning", Ghost("Accomplishing"@), Ghost(Seq::<char>::empty()));
    assert(key_less("Actioning"@, "Actualizing"@) && "Actualizing"@.len() > 0) by {
        reveal_strlit("Actualizing");
        reveal_strlit("Actioning");
        reveal_with_fuel(key_less, 5);
    }
    push_word_above(&mut words, "Actualizing", Ghost("Actioning"@), Ghost("Accomplishing"@));
    assert(key_less("Actualizing"@, "Architecting"@) && "Architecting"@.len() > 0) by {
        reveal_strlit("Architecting");
        reveal_strlit("Actualizing");
        reveal_with_fuel(key_less, 3);
    }
    push_word_above(&mut words, "Architecting", Ghost("Actualizing"@), Ghost("Actioning"@));
    assert(key_less("Architecting"@, "Baking"@) && "Baking"@.len() > 0) by {
        reveal_strlit("Baking");
        reveal_strlit("Architecting");
        reveal_with_fuel(key_less, 2);
    }
    push_word_above(&mut words, "Baking", Ghost("Architecting"@), Ghost("Actualizing"@));
    assert(key_less("Baking"@, "Beaming"@) && "Beaming"@.len() > 0) by {
        reveal_strlit("Beaming");
        reveal_strlit("Baking");
        reveal_with_fuel(key_less, 3);
    }
    push_word_above(&mut words, "Beaming", Ghost("Baking"@), Ghost("Architecting"@));
    assert(key_less("Beaming"@, "Beboppin'"@) && "Beboppin'"@.len() > 0) by {
        reveal_strlit("Beboppin'");
        reveal_strlit("Beaming");
        reveal_with_fuel(key_less, 4);
    }
    push_word_above(&mut words, "Beboppin'", Ghost("Beaming"@), Ghost("Baking"@));
    assert(key_less("Beboppin'"@, "Befuddling"@) && "Befuddling"@.len() > 0) by {
        reveal_strlit("Befuddling");
        reveal_strlit("Beboppin'");
        reveal_with_fuel(key_less, 4);
    }
    push_word_above(&mut words, "Befuddling", Ghost("Beboppin'"@), Ghost("Beaming"@));
    assert(key_less("Befuddling"@, "Billowing"@) && "Billowing"@.len() > 0) by {
        reveal_strlit("Billowing");
        reveal_strlit("Befuddling");
        reveal_with_fuel(key_less, 3);
    }
    push_word_above(&mut words, "Billowing", Ghost("Befuddling"@), Ghost("Beboppin'"@));
    assert(key_less("Billowing"@, "Blanching"@) && "Blanching"@.len() > 0) by {
        reveal_strlit("Blanching");
        reveal_strlit("Billowing");
        reveal_with_fuel(key_less, 3);
    }
    push_word_above(&mut words, "Blanching", Ghost("Billowing"@), Ghost("Befuddling"@));
    assert(key_less("Blanching"@, "Bloviating"@) && "Bloviating"@.len() > 0) by {
        reveal_strlit("Bloviating");
        reveal_strlit("Blanching");
        reveal_with_fuel(key_less, 4);
    }
    push_word_above(&mut words, "Bloviating", Ghost("Blanching"@), Ghost("Billowing"@));
    assert(key_less("Bloviating"@, "Boogieing"@) && "Boogieing"@.len() > 0) by {
        reveal_strlit("Boogieing");
        reveal_strlit("Bloviating");
        reveal_with_fuel(key_less, 3);
    }
    push_word_above(&mut words, "Boogieing", Ghost("Bloviating"@), Ghost("Blanching"@));
    assert(key_less("Boogieing"@, "Boondoggling"@) && "Boondoggling"@.len() > 0) by {
        reveal_strlit("Boondoggling");
        reveal_strlit("Boogieing");
        reveal_with_fuel(key_less, 5);
    }
    push_word_above(&mut words, "Boondoggling", Ghost("Boogieing"@), Ghost("Bloviating"@));
    assert(key_less("Boondoggling"@, "Booping"@) && "Booping"@.len() > 0) by {
        reveal_strlit("Booping");
        reveal_strlit("Boondoggling");
        reveal_with_fuel(key_less, 5);
    }
    push_word_above(&mut words, "Booping", Ghost("Boondoggling"@), Ghost("Boogieing"@));
    assert(key_less("Booping"@, "Bootstrapping"@) && "Bootstrapping"@.len() > 0) by {
        reveal_strlit("Bootstrapping");
        reveal_strlit("Booping");
        reveal_with_fuel(key_less, 5);
    }
    push_word_above(&mut words, "Bootstrapping", Ghost("Booping"@), Ghost("Boondoggling"@));
    assert(key_less("Bootstrapping"@, "Brewing"@) && "Brewing"@.len() > 0) by {
        reveal_strlit("Brewing");
        reveal_strlit("Bootstrapping");
        reveal_with_fuel(key_less, 3);
    }
    push_word_above(&mut words, "Brewing", Ghost("Bootstrapping"@), Ghost("Booping"@));
    assert(key_less("Brewing"@, "Bunning"@) && "Bunning"@.len() > 0) by {
        reveal_strlit("Bunning");
        reveal_strlit("Brewing");
        reveal_with_fuel(key_less, 3);
    }
    push_word_above(&mut words, "Bunning", Ghost("Brewing"@), Ghost("Bootstrapping"@));
    assert(key_less("Bunning"@, "Burrowing"@) && "Burrowing"@.len() > 0) by {
        reveal_strlit("Burrowing");
        reveal_strlit("Bunning");
        reveal_with_fuel(key_less, 4);
    }
    push_word_above(&mut words, "Burrowing", Ghost("Bunning"@), Ghost("Brewing"@));
    assert(key_less("Burrowing"@, "Calculating"@) && "Calculating"@.len() > 0) by {
        reveal_strlit("Calculating");
        reveal_strlit("Burrowing");
        reveal_with_fuel(key_less, 2);
    }
    push_word_above(&mut words, "Calculating", Ghost("Burrowing"@), Ghost("Bunning"@));
    assert(key_less("Calculating"@, "Canoodling"@) && "Canoodling"@.len() > 0) by {
        reveal_strlit("Canoodling");
        reveal_strlit("Calculating");
        reveal_with_fuel(key_less, 4);
    }
    push_word_above(&mut words, "Canoodling", Ghost("Calculating"@), Ghost("Burrowing"@));
    assert(key_less("Canoodling"@, "Caramelizing"@) && "Caramelizing"@.len() > 0) by {
        reveal_strlit("Caramelizing");
        reveal_strlit("Canoodling");
        reveal_with_fuel(key_less, 4);
    }
    push_word_above(&mut words, "Caramelizing", Ghost("Canoodling"@), Ghost("Calculating"@));
    assert(key_less("Caramelizing"@, "Cascading"@) && "Cascading"@.len() > 0) by {
        reveal_strlit("Cascading");
        reveal_strlit("Caramelizing");
        reveal_with_fuel(key_less, 4);
    }
    push_word_above(&mut words, "Cascading", Ghost("Caramelizing"@), Ghost("Canoodling"@));
    assert(key_less("Cascading"@, "Catapulting"@) && "Catapulting"@.len() > 0) by {
        reveal_strlit("Catapulting");
        reveal_strlit("Cascading");
        reveal_with_fuel(key_less, 4);
    }
    push_word_above(&mut words, "Catapulting", Ghost("Cascading"@), Ghost("Caramelizing"@));
    assert(key_less("Catapulting"@, "Cerebrating"@) && "Cerebrating"@.len() > 0) by {
        reveal_strlit("Cerebrating");
        reveal_strlit("Catapulting");
        reveal_with_fuel(key_less, 3);
    }
    push_word_above(&mut words, "Cerebrating", Ghost("Catapulting"@), Ghost("Cascading"@));
    assert(key_less("Cerebrating"@, "Channeling"@) && "Channeling"@.len() > 0) by {
        reveal_strlit("Channeling");
        reveal_strlit("Cerebrating");
        reveal_with_fuel(key_less, 3);
    }
    push_word_above(&mut words, "Channeling", Ghost("Cerebrating"@), Ghost("Catapulting"@));
    assert(key_less("Channeling"@, "Channelling"@) && "Channelling"@.len() > 0) by {
        reveal_strlit("Channelling");
        reveal_strlit("Channeling");
        reveal_with_fuel(key_less, 9);
    }
    push_word_above(&mut words, "Channelling", Ghost("Channeling"@), Ghost("Cerebrating"@));
    assert(key_less("Channelling"@, "Choreographing"@) && "Choreographing"@.len() > 0) by {
        reveal_strlit("Choreographing");
        reveal_strlit("Channelling");
        reveal_with_fuel(key_less, 4);
    }
    push_word_above(&mut words, "Choreographing", Ghost("Channelling"@), Ghost("Channeling"@));
    assert(key_less("Choreographing"@, "Churning"@) && "Churning"@.len() > 0) by {
        reveal_strlit("Churning");
        reveal_strlit("Choreographing");
        reveal_with_fuel(key_less, 4);
    }
    push_word_above(&mut words, "Churning", Ghost("Choreographing"@), Ghost("Channelling"@));
    assert(key_less("Churning"@, "Clauding"@) && "Clauding"@.len() > 0) by {
        reveal_strlit("Clauding");
        reveal_strlit("Churning");
        reveal_with_fuel(key_less, 3);
    }
    push_word_above(&mut words, "Clauding", Ghost("Churning"@), Ghost("Choreographing"@));
    assert(key_less("Clauding"@, "Coalescing"@) && "Coalescing"@.len() > 0) by {
        reveal_strlit("Coalescing");
        reveal_strlit("Clauding");
        reveal_with_fuel(key_less, 3);
    }
    push_word_above(&mut words, "Coalescing", Ghost("Clauding"@), Ghost("Churning"@));
    assert(key_less("Coalescing"@, "Cogitating"@) && "Cogitating"@.len() > 0) by {
        reveal_strlit("Cogitating");
        reveal_strlit("Coalescing");
        reveal_with_fuel(key_less, 4);
    }
    push_word_above(&mut words, "Cogitating", Ghost("Coalescing"@), Ghost("Clauding"@));
    assert(key_less("Cogitating"@, "Combobulating"@) && "Combobulating"@.len() > 0) by {
        reveal_strlit("Combobulating");
        reveal_strlit("Cogitating");
        reveal_with_fuel(key_less, 4);
    }
    push_word_above(&mut words, "Combobulating", Ghost("Cogitating"@), Ghost("Coalescing"@));
    assert(key_less("Combobulating"@, "Composing"@) && "Composing"@.len() > 0) by {
        reveal_strlit("Composing");
        reveal_strlit("Combobulating");
        reveal_with_fuel(key_less, 5);
    }
    push_word_above(&mut words, "Composing", Ghost("Combobulating"@), Ghost("Cogitating"@));
    assert(key_less("Composing"@, "Computing"@) && "Computing"@.len() > 0) by {
        reveal_strlit("Computing");
        reveal_strlit("Composing");
        reveal_with_fuel(key_less, 6);
    }
    push_word_above(&mut words, "Computing", Ghost("Composing"@), Ghost("Combobulating"@));
    assert(key_less("Computing"@, "Concocting"@) && "Concocting"@.len() > 0) by {
        reveal_strlit("Concocting");
        reveal_strlit("Computing");
        reveal_with_fuel(key_less, 4);
    }
    push_word_above(&mut words, "Concocting", Ghost("Computing"@), Ghost("Composing"@));
    assert(key_less("Concocting"@, "Considering"@) && "Considering"@.len() > 0) by {
        reveal_strlit("Considering");
        reveal_strlit("Concocting");
        reveal_with_fuel(key_less, 5);
    }
    push_word_above(&mut words, "Considering", Ghost("Concocting"@), Ghost("Computing"@));
    assert(key_less("Considering"@, "Contemplating"@) && "Contemplating"@.len() > 0) by {
        reveal_strlit("Contemplating");
        reveal_strlit("Considering");
        reveal_with_fuel(key_less, 5);
    }
    push_word_above(&mut words, "Contemplating", Ghost("Considering"@), Ghost("Concocting"@));
    assert(key_less("Contemplating"@, "Cooking"@) && "Cooking"@.len() > 0) by {
        reveal_strlit("Cooking");
        reveal_strlit("Contemplating");
        reveal_with_fuel(key_less, 4);
    }
    push_word_above(&mut words, "Cooking", Ghost("Contemplating"@), Ghost("Considering"@));
    assert(key_less("Cooking"@, "Crafting"@) && "Crafting"@.len() > 0) by {
        reveal_strlit("Crafting");
        reveal_strlit("Cooking");
        reveal_with_fuel(key_less, 3);
    }
    push_word_above(&mut words, "Crafting", Ghost("Cooking"@), Ghost("Contemplating"@));
    assert(key_less("Crafting"@, "Creating"@) && "Creating"@.len() > 0) by {
        reveal_strlit("Creating");
        reveal_strlit("Crafting");
        reveal_with_fuel(key_less, 4);
    }
    push_word_above(&mut words, "Creating", Ghost("Crafting"@), Ghost("Cooking"@));
    assert(key_less("Creating"@, "Crunching"@) && "Crunching"@.len() > 0) by {
        reveal_strlit("Crunching");
        reveal_strlit("Creating");
        reveal_with_fuel(key_less, 4);
    }
    push_word_above(&mut words, "Crunching", Ghost("Creating"@), Ghost("Crafting"@));
    assert(key_less("Crunching"@, "Crystallizing"@) && "Crystallizing"@.len() > 0) by {
        reveal_strlit("Crystallizing");
        reveal_strlit("Crunching");
        reveal_with_fuel(key_less, 4);
    }
    push_word_above(&mut words, "Crystallizing", Ghost("Crunching"@), Ghost("Creating"@));
    assert(key_less("Crystallizing"@, "Cultivating"@) && "Cultivating"@.len() > 0) by {
        reveal_strlit("Cultivating");
        reveal_strlit("Crystallizing");
        reveal_with_fuel(key_less, 3);
    }
    push_word_above(&mut words, "Cultivating", Ghost("Crystallizing"@), Ghost("Crunching"@));
    assert(key_less("Cultivating"@, "Deciphering"@) && "Deciphering"@.len() > 0) by {
        reveal_strlit("Deciphering");
        reveal_strlit("Cultivating");
        reveal_with_fuel(key_less, 2);
    }
    push_word_above(&mut words, "Deciphering", Ghost("Cultivating"@), Ghost("Crystallizing"@));
    assert(key_less("Deciphering"@, "Deliberating"@) && "Deliberating"@.len() > 0) by {
        reveal_strlit("Deliberating");
        reveal_strlit("Deciphering");
        reveal_with_fuel(key_less, 4);
    }
    push_word_above(&mut words, "Deliberating", Ghost("Deciphering"@), Ghost("Cultivating"@));
    assert(key_less("Deliberating"@, "Determining"@) && "Determining"@.len() > 0) by {
        reveal_strlit("Determining");
        reveal_strlit("Deliberating");
        reveal_with_fuel(key_less, 4);
    }
    push_word_above(&mut words, "Determining", Ghost("Deliberating"@), Ghost("Deciphering"@));
    assert(key_less("Determining"@, "Dilly-dallying"@) && "Dilly-dallying"@.len() > 0) by {
        reveal_strlit("Dilly-dallying");
        reveal_strlit("Determining");
        reveal_with_fuel(key_less, 3);
    }
    push_word_above(&mut words, "Dilly-dallying", Ghost("Determining"@), Ghost("Deliberating"@));
    assert(key_less("Dilly-dallying"@, "Discombobulating"@) && "Discombobulating"@.len() > 0) by {
        reveal_strlit("Discombobulating");
        reveal_strlit("Dilly-dallying");
        reveal_with_fuel(key_less, 4);
    }
    push_word_above(
        &mut words,
        "Discombobulating",
        Ghost("Dilly-dallying"@),
        Ghost("Determining"@),
    );
    assert(key_less("Discombobulating"@, "Doing"@) && "Doing"@.len() > 0) by {
        reveal_strlit("Doing");
        reveal_strlit("Discombobulating");
        reveal_with_fuel(key_less, 3);
    }
    push_word_above(&mut words, "Doing", Ghost("Discombobulating"@), Ghost("Dilly-dallying"@));
    assert(key_less("Doing"@, "Doodling"@) && "Doodling"@.len() > 0) by {
        reveal_strlit("Doodling");
        reveal_strlit("Doing");
        reveal_with_fuel(key_less, 4);
    }
    push_word_above(&mut words, "Doodling", Ghost("Doing"@), Ghost("Discombobulating"@));
    assert(key_less("Doodling"@, "Drizzling"@) && "Drizzling"@.len() > 0) by {
        reveal_strlit("Drizzling");
        reveal_strlit("Doodling");
        reveal_with_fuel(key_less, 3);
    }
    push_word_above(&mut words, "Drizzling", Ghost("Doodling"@), Ghost("Doing"@));
    assert(key_less("Drizzling"@, "Ebbing"@) && "Ebbing"@.len() > 0) by {
        reveal_strlit("Ebbing");
        reveal_strlit("Drizzling");
        reveal_with_fuel(key_less, 2);
    }
    push_word_above(&mut words, "Ebbing", Ghost("Drizzling"@), Ghost("Doodling"@));
    assert(key_less("Ebbing"@, "Effecting"@) && "Effecting"@.len() > 0) by {
        reveal_strlit("Effecting");
        reveal_strlit("Ebbing");
        reveal_with_fuel(key_less, 3);
    }
    push_word_above(&mut words, "Effecting", Ghost("Ebbing"@), Ghost("Drizzling"@));
    assert(key_less("Effecting"@, "Elucidating"@) && "Elucidating"@.len() > 0) by {
        reveal_strlit("Elucidating");
        reveal_strlit("Effecting");
        reveal_with_fuel(key_less, 3);
    }
    push_word_above(&mut words, "Elucidating", Ghost("Effecting"@), Ghost("Ebbing"@));
    assert(key_less("Elucidating"@, "Embellishing"@) && "Embellishing"@.len() > 0) by {
        reveal_strlit("Embellishing");
        reveal_strlit("Elucidating");
        reveal_with_fuel(key_less, 3);
    }
    push_word_above(&mut words, "Embellishing", Ghost("Elucidating"@), Ghost("Effecting"@));
    assert(key_less("Embellishing"@, "Enchanting"@) && "Enchanting"@.len() > 0) by {
        reveal_strlit("Enchanting");
        reveal_strlit("Embellishing");
        reveal_with_fuel(key_less, 3);
    }
    push_word_above(&mut words, "Enchanting", Ghost("Embellishing"@), Ghost("Elucidating"@));
    assert(key_less("Enchanting"@, "Envisioning"@) && "Envisioning"@.len() > 0) by {
        reveal_strlit("Envisioning");
        reveal_strlit("Enchanting");
        reveal_with_fuel(key_less, 4);
    }
    push_word_above(&mut words, "Envisioning", Ghost("Enchanting"@), Ghost("Embellishing"@));
    assert(key_less("Envisioning"@, "Evaporating"@) && "Evaporating"@.len() > 0) by {
        reveal_strlit("Evaporating");
        reveal_strlit("Envisioning");
        reveal_with_fuel(key_less, 3);
    }
    push_word_above(&mut words, "Evaporating", Ghost("Envisioning"@), Ghost("Enchanting"@));
    assert(key_less("Evaporating"@, "Fermenting"@) && "Fermenting"@.len() > 0) by {
        reveal_strlit("Fermenting");
        reveal_strlit("Evaporating");
        reveal_with_fuel(key_less, 2);
    }
    push_word_above(&mut words, "Fermenting", Ghost("Evaporating"@), Ghost("Envisioning"@));
    assert(key_less("Fermenting"@, "Fiddle-faddling"@) && "Fiddle-faddling"@.len() > 0) by {
        reveal_strlit("Fiddle-faddling");
        reveal_strlit("Fermenting");
        reveal_with_fuel(key_less, 3);
    }
    push_word_above(&mut words, "Fiddle-faddling", Ghost("Fermenting"@), Ghost("Evaporating"@));
    assert(key_less("Fiddle-faddling"@, "Finagling"@) && "Finagling"@.len() > 0) by {
        reveal_strlit("Finagling");
        reveal_strlit("Fiddle-faddling");
        reveal_with_fuel(key_less, 4);
    }
    push_word_above(&mut words, "Finagling", Ghost("Fiddle-faddling"@), Ghost("Fermenting"@));
    assert(key_less("Finagling"@, "Flamb\u{e9}ing"@) && "Flamb\u{e9}ing"@.len() > 0) by {
        reveal_strlit("Flamb\u{e9}ing");
        reveal_strlit("Finagling");
        reveal_with_fuel(key_less, 3);
    }
    push_word_above(&mut words, "Flamb\u{e9}ing", Ghost("Finagling"@), Ghost("Fiddle-faddling"@));
    assert(key_less("Flamb\u{e9}ing"@, "Flibbertigibbeting"@) && "Flibbertigibbeting"@.len()
        > 0) by {
        reveal_strlit("Flibbertigibbeting");
        reveal_strlit("Flamb\u{e9}ing");
        reveal_with_fuel(key_less, 4);
    }
    push_word_above(
        &mut words,
        "Flibbertigibbeting",
        Ghost("Flamb\u{e9}ing"@),
        Ghost("Finagling"@),
    );
    assert(key_less("Flibbertigibbeting"@, "Flowing"@) && "Flowing"@.len() > 0) by {
        reveal_strlit("Flowing");
        reveal_strlit("Flibbertigibbeting");
        reveal_with_fuel(key_less, 4);
    }
    push_word_above(&mut words, "Flowing", Ghost("Flibbertigibbeting"@), Ghost("Flamb\u{e9}ing"@));
    assert(key_less("Flowing"@, "Flummoxing"@) && "Flummoxing"@.len() > 0) by {
        reveal_strlit("Flummoxing");
        reveal_strlit("Flowing");
        reveal_with_fuel(key_less, 4);
    }
    push_word_above(&mut words, "Flummoxing", Ghost("Flowing"@), Ghost("Flibbertigibbeting"@));
    assert(key_less("Flummoxing"@, "Fluttering"@) && "Fluttering"@.len() > 0) by {
        reveal_strlit("Fluttering");
        reveal_strlit("Flummoxing");
        reveal_with_fuel(key_less, 5);
    }
    push_word_above(&mut words, "Fluttering", Ghost("Flummoxing"@), Ghost("Flowing"@));
    assert(key_less("Fluttering"@, "Forging"@) && "Forging"@.len() > 0) by {
        reveal_strlit("Forging");
        reveal_strlit("Fluttering");
        reveal_with_fuel(key_less, 3);
    }
    push_word_above(&mut words, "Forging", Ghost("Fluttering"@), Ghost("Flummoxing"@));
    assert(key_less("Forging"@, "Forming"@) && "Forming"@.len() > 0) by {
        reveal_strlit("Forming");
        reveal_strlit("Forging");
        reveal_with_fuel(key_less, 5);
    }
    push_word_above(&mut words, "Forming", Ghost("Forging"@), Ghost("Fluttering"@));
    assert(key_less("Forming"@, "Frolicking"@) && "Frolicking"@.len() > 0) by {
        reveal_strlit("Frolicking");
        reveal_strlit("Forming");
        reveal_with_fuel(key_less, 3);
    }
    push_word_above(&mut words, "Frolicking", Ghost("Forming"@), Ghost("Forging"@));
    assert(key_less("Frolicking"@, "Frosting"@) && "Frosting"@.len() > 0) by {
        reveal_strlit("Frosting");
        reveal_strlit("Frolicking");
        reveal_with_fuel(key_less, 5);
    }
    push_word_above(&mut words, "Frosting", Ghost("Frolicking"@), Ghost("Forming"@));
    assert(key_less("Frosting"@, "Gallivanting"@) && "Gallivanting"@.len() > 0) by {
        reveal_strlit("Gallivanting");
        reveal_strlit("Frosting");
        reveal_with_fuel(key_less, 2);
    }
    push_word_above(&mut words, "Gallivanting", Ghost("Frosting"@), Ghost("Frolicking"@));
    assert(key_less("Gallivanting"@, "Galloping"@) && "Galloping"@.len() > 0) by {
        reveal_strlit("Galloping");
        reveal_strlit("Gallivanting");
        reveal_with_fuel(key_less, 6);
    }
    push_word_above(&mut words, "Galloping", Ghost("Gallivanting"@), Ghost("Frosting"@));
    assert(key_less("Galloping"@, "Garnishing"@) && "Garnishing"@.len() > 0) by {
        reveal_strlit("Garnishing");
        reveal_strlit("Galloping");
        reveal_with_fuel(key_less, 4);
    }
    push_word_above(&mut words, "Garnishing", Ghost("Galloping"@), Ghost("Gallivanting"@));
    assert(key_less("Garnishing"@, "Generating"@) && "Generating"@.len() > 0) by {
        reveal_strlit("Generating");
        reveal_strlit("Garnishing");
        reveal_with_fuel(key_less, 3);
    }
    push_word_above(&mut words, "Generating", Ghost("Garnishing"@), Ghost("Galloping"@));
    assert(key_less("Generating"@, "Gesticulating"@) && "Gesticulating"@.len() > 0) by {
        reveal_strlit("Gesticulating");
        reveal_strlit("Generating");
        reveal_with_fuel(key_less, 4);
    }
    push_word_above(&mut words, "Gesticulating", Ghost("Generating"@), Ghost("Garnishing"@));
    assert({
        &&& key_less("Generating"@, "Germinating"@)
        &&& key_less("Germinating"@, "Gesticulating"@)
        &&& key_at_most("Germinating"@, "Gesticulating"@)
        &&& "Germinating"@.len() > 0
    }) by {
        reveal_strlit("Germinating");
        reveal_strlit("Gesticulating");
        reveal_strlit("Generating");
        reveal_strlit("Gesticulating");
        reveal_with_fuel(key_less, 4);
    }
    push_word_below_last(&mut words, "Germinating", Ghost("Gesticulating"@), Ghost("Generating"@));
    assert(key_less("Gesticulating"@, "Gitifying"@) && "Gitifying"@.len() > 0) by {
        reveal_strlit("Gitifying");
        reveal_strlit("Gesticulating");
        reveal_with_fuel(key_less, 3);
    }
    push_word_above(&mut words, "Gitifying", Ghost("Gesticulating"@), Ghost("Gesticulating"@));
    assert(key_less("Gitifying"@, "Grooving"@) && "Grooving"@.len() > 0) by {
        reveal_strlit("Grooving");
        reveal_strlit("Gitifying");
        reveal_with_fuel(key_less, 3);
    }
    push_word_above(&mut words, "Grooving", Ghost("Gitifying"@), Ghost("Gesticulating"@));
    assert(key_less("Grooving"@, "Gusting"@) && "Gusting"@.len() > 0) by {
        reveal_strlit("Gusting");
        reveal_strlit("Grooving");
        reveal_with_fuel(key_less, 3);
    }
    push_word_above(&mut words, "Gusting", Ghost("Grooving"@), Ghost("Gitifying"@));
    assert(key_less("Gusting"@, "Harmonizing"@) && "Harmonizing"@.len() > 0) by {
        reveal_strlit("Harmonizing");
        reveal_strlit("Gusting");
        reveal_with_fuel(key_less, 2);
    }
    push_word_above(&mut words, "Harmonizing", Ghost("Gusting"@), Ghost("Grooving"@));
    assert(key_less("Harmonizing"@, "Hashing"@) && "Hashing"@.len() > 0) by {
        reveal_strlit("Hashing");
        reveal_strlit("Harmonizing");
        reveal_with_fuel(key_less, 4);
    }
    push_word_above(&mut words, "Hashing", Ghost("Harmonizing"@), Ghost("Gusting"@));
    assert(key_less("Hashing"@, "Hatching"@) && "Hatching"@.len() > 0) by {
        reveal_strlit("Hatching");
        reveal_strlit("Hashing");
        reveal_with_fuel(key_less, 4);
    }
    push_word_above(&mut words, "Hatching", Ghost("Hashing"@), Ghost("Harmonizing"@));
    assert(key_less("Hatching"@, "Herding"@) && "Herding"@.len() > 0) by {
        reveal_strlit("Herding");
        reveal_strlit("Hatching");
        reveal_with_fuel(key_less, 3);
    }
    push_word_above(&mut words, "Herding", Ghost("Hatching"@), Ghost("Hashing"@));
    assert(key_less("Herding"@, "Honking"@) && "Honking"@.len() > 0) by {
        reveal_strlit("Honking");
        reveal_strlit("Herding");
        reveal_with_fuel(key_less, 3);
    }
    push_word_above(&mut words, "Honking", Ghost("Herding"@), Ghost("Hatching"@));
    assert(key_less("Honking"@, "Hullaballooing"@) && "Hullaballooing"@.len() > 0) by {
        reveal_strlit("Hullaballooing");
        reveal_strlit("Honking");
        reveal_with_fuel(key_less, 3);
    }
    push_word_above(&mut words, "Hullaballooing", Ghost("Honking"@), Ghost("Herding"@));
    assert(key_less("Hullaballooing"@, "Hyperspacing"@) && "Hyperspacing"@.len() > 0) by {
        reveal_strlit("Hyperspacing");
        reveal_strlit("Hullaballooing");
        reveal_with_fuel(key_less, 3);
    }
    push_word_above(&mut words, "Hyperspacing", Ghost("Hullaballooing"@), Ghost("Honking"@));
    assert(key_less("Hyperspacing"@, "Ideating"@) && "Ideating"@.len() > 0) by {
        reveal_strlit("Ideating");
        reveal_strlit("Hyperspacing");
        reveal_with_fuel(key_less, 2);
    }
    push_word_above(&mut words, "Ideating", Ghost("Hyperspacing"@), Ghost("Hullaballooing"@));
    assert(key_less("Ideating"@, "Imagining"@) && "Imagining"@.len() > 0) by {
        reveal_strlit("Imagining");
        reveal_strlit("Ideating");
        reveal_with_fuel(key_less, 3);
    }
    push_word_above(&mut words, "Imagining", Ghost("Ideating"@), Ghost("Hyperspacing"@));
    assert(key_less("Imagining"@, "Improvising"@) && "Improvising"@.len() > 0) by {
        reveal_strlit("Improvising");
        reveal_strlit("Imagining");
        reveal_with_fuel(key_less, 4);
    }
    push_word_above(&mut words, "Improvising", Ghost("Imagining"@), Ghost("Ideating"@));
    assert(key_less("Improvising"@, "Incubating"@) && "Incubating"@.len() > 0) by {
        reveal_strlit("Incubating");
        reveal_strlit("Improvising");
        reveal_with_fuel(key_less, 3);
    }
    push_word_above(&mut words, "Incubating", Ghost("Improvising"@), Ghost("Imagining"@));
    assert(key_less("Incubating"@, "Inferring"@) && "Inferring"@.len() > 0) by {
        reveal_strlit("Inferring");
        reveal_strlit("Incubating");
        reveal_with_fuel(key_less, 4);
    }
    push_word_above(&mut words, "Inferring", Ghost("Incubating"@), Ghost("Improvising"@));
    assert(key_less("Inferring"@, "Infusing"@) && "Infusing"@.len() > 0) by {
        reveal_strlit("Infusing");
        reveal_strlit("Inferring");
        reveal_with_fuel(key_less, 5);
    }
    push_word_above(&mut words, "Infusing", Ghost("Inferring"@), Ghost("Incubating"@));
    assert(key_less("Infusing"@, "Ionizing"@) && "Ionizing"@.len() > 0) by {
        reveal_strlit("Ionizing");
        reveal_strlit("Infusing");
        reveal_with_fuel(key_less, 3);
    }
    push_word_above(&mut words, "Ionizing", Ghost("Infusing"@), Ghost("Inferring"@));
    assert(key_less("Ionizing"@, "Jitterbugging"@) && "Jitterbugging"@.len() > 0) by {
        reveal_strlit("Jitterbugging");
        reveal_strlit("Ionizing");
        reveal_with_fuel(key_less, 2);
    }
    push_word_above(&mut words, "Jitterbugging", Ghost("Ionizing"@), Ghost("Infusing"@));
    assert(key_less("Jitterbugging"@, "Julienning"@) && "Julienning"@.len() > 0) by {
        reveal_strlit("Julienning");
        reveal_strlit("Jitterbugging");
        reveal_with_fuel(key_less, 3);
    }
    push_word_above(&mut words, "Julienning", Ghost("Jitterbugging"@), Ghost("Ionizing"@));
    assert(key_less("Julienning"@, "Kneading"@) && "Kneading"@.len() > 0) by {
        reveal_strlit("Kneading");
        reveal_strlit("Julienning");
        reveal_with_fuel(key_less, 2);
    }
    push_word_above(&mut words, "Kneading", Ghost("Julienning"@), Ghost("Jitterbugging"@));
    assert(key_less("Kneading"@, "Leavening"@) && "Leavening"@.len() > 0) by {
        reveal_strlit("Leavening");
        reveal_strlit("Kneading");
        reveal_with_fuel(key_less, 2);
    }
    push_word_above(&mut words, "Leavening", Ghost("Kneading"@), Ghost("Julienning"@));
    assert(key_less("Leavening"@, "Levitating"@) && "Levitating"@.len() > 0) by {
        reveal_strlit("Levitating");
        reveal_strlit("Leavening");
        reveal_with_fuel(key_less, 4);
    }
    push_word_above(&mut words, "Levitating", Ghost("Leavening"@), Ghost("Kneading"@));
    assert(key_less("Levitating"@, "Lollygagging"@) && "Lollygagging"@.len() > 0) by {
        reveal_strlit("Lollygagging");
        reveal_strlit("Levitating");
        reveal_with_fuel(key_less, 3);
    }
    push_word_above(&mut words, "Lollygagging", Ghost("Levitating"@), Ghost("Leavening"@));
    assert(key_less("Lollygagging"@, "Manifesting"@) && "Manifesting"@.len() > 0) by {
        reveal_strlit("Manifesting");
        reveal_strlit("Lollygagging");
        reveal_with_fuel(key_less, 2);
    }
    push_word_above(&mut words, "Manifesting", Ghost("Lollygagging"@), Ghost("Levitating"@));
    assert(key_less("Manifesting"@, "Marinating"@) && "Marinating"@.len() > 0) by {
        reveal_strlit("Marinating");
        reveal_strlit("Manifesting");
        reveal_with_fuel(key_less, 4);
    }
    push_word_above(&mut words, "Marinating", Ghost("Manifesting"@), Ghost("Lollygagging"@));
    assert(key_less("Marinating"@, "Meandering"@) && "Meandering"@.len() > 0) by {
        reveal_strlit("Meandering");
        reveal_strlit("Marinating");
        reveal_with_fuel(key_less, 3);
    }
    push_word_above(&mut words, "Meandering", Ghost("Marinating"@), Ghost("Manifesting"@));
    assert(key_less("Meandering"@, "Metamorphosing"@) && "Metamorphosing"@.len() > 0) by {
        reveal_strlit("Metamorphosing");
        reveal_strlit("Meandering");
        reveal_with_fuel(key_less, 4);
    }
    push_word_above(&mut words, "Metamorphosing", Ghost("Meandering"@), Ghost("Marinating"@));
    assert(key_less("Metamorphosing"@, "Misting"@) && "Misting"@.len() > 0) by {
        reveal_strlit("Misting");
        reveal_strlit("Metamorphosing");
        reveal_with_fuel(key_less, 3);
    }
    push_word_above(&mut words, "Misting", Ghost("Metamorphosing"@), Ghost("Meandering"@));
    assert(key_less("Misting"@, "Moonwalking"@) && "Moonwalking"@.len() > 0) by {
        reveal_strlit("Moonwalking");
        reveal_strlit("Misting");
        reveal_with_fuel(key_less, 3);
    }
    push_word_above(&mut words, "Moonwalking", Ghost("Misting"@), Ghost("Metamorphosing"@));
    assert(key_less("Moonwalking"@, "Moseying"@) && "Moseying"@.len() > 0) by {
        reveal_strlit("Moseying");
        reveal_strlit("Moonwalking");
        reveal_with_fuel(key_less, 4);
    }
    push_word_above(&mut words, "Moseying", Ghost("Moonwalking"@), Ghost("Misting"@));
    assert(key_less("Moseying"@, "Mulling"@) && "Mulling"@.len() > 0) by {
        reveal_strlit("Mulling");
        reveal_strlit("Moseying");
        reveal_with_fuel(key_less, 3);
    }
    push_word_above(&mut words, "Mulling", Ghost("Moseying"@), Ghost("Moonwalking"@));
    assert(key_less("Mulling"@, "Mustering"@) && "Mustering"@.len() > 0) by {
        reveal_strlit("Mustering");
        reveal_strlit("Mulling");
        reveal_with_fuel(key_less, 4);
    }
    push_word_above(&mut words, "Mustering", Ghost("Mulling"@), Ghost("Moseying"@));
    assert({
        &&& key_less("Mulling"@, "Musing"@)
        &&& key_less("Musing"@, "Mustering"@)
        &&& key_at_most("Musing"@, "Mustering"@)
        &&& "Musing"@.len() > 0
    }) by {
        reveal_strlit("Musing");
        reveal_strlit("Mustering");
        reveal_strlit("Mulling");
        reveal_strlit("Mustering");
        reveal_with_fuel(key_less, 5);
    }
    push_word_below_last(&mut words, "Musing", Ghost("Mustering"@), Ghost("Mulling"@));
    assert(key_less("Mustering"@, "Nebulizing"@) && "Nebulizing"@.len() > 0) by {
        reveal_strlit("Nebulizing");
        reveal_strlit("Mustering");
        reveal_with_fuel(key_less, 2);
    }
    push_word_above(&mut words, "Nebulizing", Ghost("Mustering"@), Ghost("Mustering"@));
    assert(key_less("Nebulizing"@, "Nesting"@) && "Nesting"@.len() > 0) by {
        reveal_strlit("Nesting");
        reveal_strlit("Nebulizing");
        reveal_with_fuel(key_less, 4);
    }
    push_word_above(&mut words, "Nesting", Ghost("Nebulizing"@), Ghost("Mustering"@));
    assert(key_less("Nesting"@, "Newspapering"@) && "Newspapering"@.len() > 0) by {
        reveal_strlit("Newspapering");
        reveal_strlit("Nesting");
        reveal_with_fuel(key_less, 4);
    }
    push_word_above(&mut words, "Newspapering", Ghost("Nesting"@), Ghost("Nebulizing"@));
    assert(key_less("Newspapering"@, "Noodling"@) && "Noodling"@.len() > 0) by {
        reveal_strlit("Noodling");
        reveal_strlit("Newspapering");
        reveal_with_fuel(key_less, 3);
    }
    push_word_above(&mut words, "Noodling", Ghost("Newspapering"@), Ghost("Nesting"@));
    assert(key_less("Noodling"@, "Nucleating"@) && "Nucleating"@.len() > 0) by {
        reveal_strlit("Nucleating");
        reveal_strlit("Noodling");
        reveal_with_fuel(key_less, 3);
    }
    push_word_above(&mut words, "Nucleating", Ghost("Noodling"@), Ghost("Newspapering"@));
    assert(key_less("Nucleating"@, "Orbiting"@) && "Orbiting"@.len() > 0) by {
        reveal_strlit("Orbiting");
        reveal_strlit("Nucleating");
        reveal_with_fuel(key_less, 2);
    }
    push_word_above(&mut words, "Orbiting", Ghost("Nucleating"@), Ghost("Noodling"@));
    assert(key_less("Orbiting"@, "Orchestrating"@) && "Orchestrating"@.len() > 0) by {
        reveal_strlit("Orchestrating");
        reveal_strlit("Orbiting");
        reveal_with_fuel(key_less, 4);
    }
    push_word_above(&mut words, "Orchestrating", Ghost("Orbiting"@), Ghost("Nucleating"@));
    assert(key_less("Orchestrating"@, "Osmosing"@) && "Osmosing"@.len() > 0) by {
        reveal_strlit("Osmosing");
        reveal_strlit("Orchestrating");
        reveal_with_fuel(key_less, 3);
    }
    push_word_above(&mut words, "Osmosing", Ghost("Orchestrating"@), Ghost("Orbiting"@));
    assert(key_less("Osmosing"@, "Perambulating"@) && "Perambulating"@.len() > 0) by {
        reveal_strlit("Perambulating");
        reveal_strlit("Osmosing");
        reveal_with_fuel(key_less, 2);
    }
    push_word_above(&mut words, "Perambulating", Ghost("Osmosing"@), Ghost("Orchestrating"@));
    assert(key_less("Perambulating"@, "Percolating"@) && "Percolating"@.len() > 0) by {
        reveal_strlit("Percolating");
        reveal_strlit("Perambulating");
        reveal_with_fuel(key_less, 5);
    }
    push_word_above(&mut words, "Percolating", Ghost("Perambulating"@), Ghost("Osmosing"@));
    assert(key_less("Percolating"@, "Perusing"@) && "Perusing"@.len() > 0) by {
        reveal_strlit("Perusing");
        reveal_strlit("Percolating");
        reveal_with_fuel(key_less, 5);
    }
    push_word_above(&mut words, "Perusing", Ghost("Percolating"@), Ghost("Perambulating"@));
    assert(key_less("Perusing"@, "Philosophising"@) && "Philosophising"@.len() > 0) by {
        reveal_strlit("Philosophising");
        reveal_strlit("Perusing");
        reveal_with_fuel(key_less, 3);
    }
    push_word_above(&mut words, "Philosophising", Ghost("Perusing"@), Ghost("Percolating"@));
    assert(key_less("Philosophising"@, "Photosynthesizing"@) && "Photosynthesizing"@.len() > 0) by {
        reveal_strlit("Photosynthesizing");
        reveal_strlit("Philosophising");
        reveal_with_fuel(key_less, 4);
    }
    push_word_above(&mut words, "Photosynthesizing", Ghost("Philosophising"@), Ghost("Perusing"@));
    assert(key_less("Photosynthesizing"@, "Pollinating"@) && "Pollinating"@.len() > 0) by {
        reveal_strlit("Pollinating");
        reveal_strlit("Photosynthesizing");
        reveal_with_fuel(key_less, 3);
    }
    push_word_above(
        &mut words,
        "Pollinating",
        Ghost("Photosynthesizing"@),
        Ghost("Philosophising"@),
    );
    assert(key_less("Pollinating"@, "Pondering"@) && "Pondering"@.len() > 0) by {
        reveal_strlit("Pondering");
        reveal_strlit("Pollinating");
        reveal_with_fuel(key_less, 4);
    }
    push_word_above(&mut words, "Pondering", Ghost("Pollinating"@), Ghost("Photosynthesizing"@));
    assert(key_less("Pondering"@, "Pontificating"@) && "Pontificating"@.len() > 0) by {
        reveal_strlit("Pontificating");
        reveal_strlit("Pondering");
        reveal_with_fuel(key_less, 5);
    }
    push_word_above(&mut words, "Pontificating", Ghost("Pondering"@), Ghost("Pollinating"@));
    assert(key_less("Pontificating"@, "Pouncing"@) && "Pouncing"@.len() > 0) by {
        reveal_strlit("Pouncing");
        reveal_strlit("Pontificating");
        reveal_with_fuel(key_less, 4);
    }
    push_word_above(&mut words, "Pouncing", Ghost("Pontificating"@), Ghost("Pondering"@));
    assert(key_less("Pouncing"@, "Precipitating"@) && "Precipitating"@.len() > 0) by {
        reveal_strlit("Precipitating");
        reveal_strlit("Pouncing");
        reveal_with_fuel(key_less, 3);
    }
    push_word_above(&mut words, "Precipitating", Ghost("Pouncing"@), Ghost("Pontificating"@));
    assert(key_less("Precipitating"@, "Prestidigitating"@) && "Prestidigitating"@.len() > 0) by {
        reveal_strlit("Prestidigitating");
        reveal_strlit("Precipitating");
        reveal_with_fuel(key_less, 5);
    }
    push_word_above(&mut words, "Prestidigitating", Ghost("Precipitating"@), Ghost("Pouncing"@));
    assert(key_less("Prestidigitating"@, "Processing"@) && "Processing"@.len() > 0) by {
        reveal_strlit("Processing");
        reveal_strlit("Prestidigitating");
        reveal_with_fuel(key_less, 4);
    }
    push_word_above(&mut words, "Processing", Ghost("Prestidigitating"@), Ghost("Precipitating"@));
    assert(key_less("Processing"@, "Proofing"@) && "Proofing"@.len() > 0) by {
        reveal_strlit("Proofing");
        reveal_strlit("Processing");
        reveal_with_fuel(key_less, 5);
    }
    push_word_above(&mut words, "Proofing", Ghost("Processing"@), Ghost("Prestidigitating"@));
    assert(key_less("Proofing"@, "Propagating"@) && "Propagating"@.len() > 0) by {
        reveal_strlit("Propagating");
        reveal_strlit("Proofing");
        reveal_with_fuel(key_less, 5);
    }
    push_word_above(&mut words, "Propagating", Ghost("Proofing"@), Ghost("Processing"@));
    assert(key_less("Propagating"@, "Puttering"@) && "Puttering"@.len() > 0) by {
        reveal_strlit("Puttering");
        reveal_strlit("Propagating");
        reveal_with_fuel(key_less, 3);
    }
    push_word_above(&mut words, "Puttering", Ghost("Propagating"@), Ghost("Proofing"@));
    assert(key_less("Puttering"@, "Puzzling"@) && "Puzzling"@.len() > 0) by {
        reveal_strlit("Puzzling");
        reveal_strlit("Puttering");
        reveal_with_fuel(key_less, 4);
    }
    push_word_above(&mut words, "Puzzling", Ghost("Puttering"@), Ghost("Propagating"@));
    assert(key_less("Puzzling"@, "Quantumizing"@) && "Quantumizing"@.len() > 0) by {
        reveal_strlit("Quantumizing");
        reveal_strlit("Puzzling");
        reveal_with_fuel(key_less, 2);
    }
    push_word_above(&mut words, "Quantumizing", Ghost("Puzzling"@), Ghost("Puttering"@));
    assert(key_less("Quantumizing"@, "Razzle-dazzling"@) && "Razzle-dazzling"@.len() > 0) by {
        reveal_strlit("Razzle-dazzling");
        reveal_strlit("Quantumizing");
        reveal_with_fuel(key_less, 2);
    }
    push_word_above(&mut words, "Razzle-dazzling", Ghost("Quantumizing"@), Ghost("Puzzling"@));
    assert(key_less("Razzle-dazzling"@, "Razzmatazzing"@) && "Razzmatazzing"@.len() > 0) by {
        reveal_strlit("Razzmatazzing");
        reveal_strlit("Razzle-dazzling");
        reveal_with_fuel(key_less, 6);
    }
    push_word_above(
        &mut words,
        "Razzmatazzing",
        Ghost("Razzle-dazzling"@),
        Ghost("Quantumizing"@),
    );
    assert(key_less("Razzmatazzing"@, "Recombobulating"@) && "Recombobulating"@.len() > 0) by {
        reveal_strlit("Recombobulating");
        reveal_strlit("Razzmatazzing");
        reveal_with_fuel(key_less, 3);
    }
    push_word_above(
        &mut words,
        "Recombobulating",
        Ghost("Razzmatazzing"@),
        Ghost("Razzle-dazzling"@),
    );
    assert(key_less("Recombobulating"@, "Reticulating"@) && "Reticulating"@.len() > 0) by {
        reveal_strlit("Reticulating");
        reveal_strlit("Recombobulating");
        reveal_with_fuel(key_less, 4);
    }
    push_word_above(
        &mut words,
        "Reticulating",
        Ghost("Recombobulating"@),
        Ghost("Razzmatazzing"@),
    );
    assert(key_less("Reticulating"@, "Roosting"@) && "Roosting"@.len() > 0) by {
        reveal_strlit("Roosting");
        reveal_strlit("Reticulating");
        reveal_with_fuel(key_less, 3);
    }
    push_word_above(&mut words, "Roosting", Ghost("Reticulating"@), Ghost("Recombobulating"@));
    assert(key_less("Roosting"@, "Ruminating"@) && "Ruminating"@.len() > 0) by {
        reveal_strlit("Ruminating");
        reveal_strlit("Roosting");
        reveal_with_fuel(key_less, 3);
    }
    push_word_above(&mut words, "Ruminating", Ghost("Roosting"@), Ghost("Reticulating"@));
    assert(key_less("Ruminating"@, "Saut\u{e9}ing"@) && "Saut\u{e9}ing"@.len() > 0) by {
        reveal_strlit("Saut\u{e9}ing");
        reveal_strlit("Ruminating");
        reveal_with_fuel(key_less, 2);
    }
    push_word_above(&mut words, "Saut\u{e9}ing", Ghost("Ruminating"@), Ghost("Roosting"@));
    assert(key_less("Saut\u{e9}ing"@, "Scampering"@) && "Scampering"@.len() > 0) by {
        reveal_strlit("Scampering");
        reveal_strlit("Saut\u{e9}ing");
        reveal_with_fuel(key_less, 3);
    }
    push_word_above(&mut words, "Scampering", Ghost("Saut\u{e9}ing"@), Ghost("Ruminating"@));
    assert(key_less("Scampering"@, "Schlepping"@) && "Schlepping"@.len() > 0) by {
        reveal_strlit("Schlepping");
        reveal_strlit("Scampering");
        reveal_with_fuel(key_less, 4);
    }
    push_word_above(&mut words, "Schlepping", Ghost("Scampering"@), Ghost("Saut\u{e9}ing"@));
    assert(key_less("Schlepping"@, "Scurrying"@) && "Scurrying"@.len() > 0) by {
        reveal_strlit("Scurrying");
        reveal_strlit("Schlepping");
        reveal_with_fuel(key_less, 4);
    }
    push_word_above(&mut words, "Scurrying", Ghost("Schlepping"@), Ghost("Scampering"@));
    assert(key_less("Scurrying"@, "Seasoning"@) && "Seasoning"@.len() > 0) by {
        reveal_strlit("Seasoning");
        reveal_strlit("Scurrying");
        reveal_with_fuel(key_less, 3);
    }
    push_word_above(&mut words, "Seasoning", Ghost("Scurrying"@), Ghost("Schlepping"@));
    assert(key_less("Seasoning"@, "Shenaniganing"@) && "Shenaniganing"@.len() > 0) by {
        reveal_strlit("Shenaniganing");
        reveal_strlit("Seasoning");
        reveal_with_fuel(key_less, 3);
    }
    push_word_above(&mut words, "Shenaniganing", Ghost("Seasoning"@), Ghost("Scurrying"@));
    assert(key_less("Shenaniganing"@, "Shimmying"@) && "Shimmying"@.len() > 0) by {
        reveal_strlit("Shimmying");
        reveal_strlit("Shenaniganing");
        reveal_with_fuel(key_less, 4);
    }
    push_word_above(&mut words, "Shimmying", Ghost("Shenaniganing"@), Ghost("Seasoning"@));
    assert(key_less("Shimmying"@, "Simmering"@) && "Simmering"@.len() > 0) by {
        reveal_strlit("Simmering");
        reveal_strlit("Shimmying");
        reveal_with_fuel(key_less, 3);
    }
    push_word_above(&mut words, "Simmering", Ghost("Shimmying"@), Ghost("Shenaniganing"@));
    assert(key_less("Simmering"@, "Skedaddling"@) && "Skedaddling"@.len() > 0) by {
        reveal_strlit("Skedaddling");
        reveal_strlit("Simmering");
        reveal_with_fuel(key_less, 3);
    }
    push_word_above(&mut words, "Skedaddling", Ghost("Simmering"@), Ghost("Shimmying"@));
    assert(key_less("Skedaddling"@, "Sketching"@) && "Sketching"@.len() > 0) by {
        reveal_strlit("Sketching");
        reveal_strlit("Skedaddling");
        reveal_with_fuel(key_less, 5);
    }
    push_word_above(&mut words, "Sketching", Ghost("Skedaddling"@), Ghost("Simmering"@));
    assert(key_less("Sketching"@, "Slithering"@) && "Slithering"@.len() > 0) by {
        reveal_strlit("Slithering");
        reveal_strlit("Sketching");
        reveal_with_fuel(key_less, 3);
    }
    push_word_above(&mut words, "Slithering", Ghost("Sketching"@), Ghost("Skedaddling"@));
    assert(key_less("Slithering"@, "Smooshing"@) && "Smooshing"@.len() > 0) by {
        reveal_strlit("Smooshing");
        reveal_strlit("Slithering");
        reveal_with_fuel(key_less, 3);
    }
    push_word_above(&mut words, "Smooshing", Ghost("Slithering"@), Ghost("Sketching"@));
    assert(key_less("Smooshing"@, "Sock-hopping"@) && "Sock-hopping"@.len() > 0) by {
        reveal_strlit("Sock-hopping");
        reveal_strlit("Smooshing");
        reveal_with_fuel(key_less, 3);
    }
    push_word_above(&mut words, "Sock-hopping", Ghost("Smooshing"@), Ghost("Slithering"@));
    assert(key_less("Sock-hopping"@, "Spelunking"@) && "Spelunking"@.len() > 0) by {
        reveal_strlit("Spelunking");
        reveal_strlit("Sock-hopping");
        reveal_with_fuel(key_less, 3);
    }
    push_word_above(&mut words, "Spelunking", Ghost("Sock-hopping"@), Ghost("Smooshing"@));
    assert(key_less("Spelunking"@, "Spinning"@) && "Spinning"@.len() > 0) by {
        reveal_strlit("Spinning");
        reveal_strlit("Spelunking");
        reveal_with_fuel(key_less, 4);
    }
    push_word_above(&mut words, "Spinning", Ghost("Spelunking"@), Ghost("Sock-hopping"@));
    assert(key_less("Spinning"@, "Sprouting"@) && "Sprouting"@.len() > 0) by {
        reveal_strlit("Sprouting");
        reveal_strlit("Spinning");
        reveal_with_fuel(key_less, 4);
    }
    push_word_above(&mut words, "Sprouting", Ghost("Spinning"@), Ghost("Spelunking"@));
    assert(key_less("Sprouting"@, "Stewing"@) && "Stewing"@.len() > 0) by {
        reveal_strlit("Stewing");
        reveal_strlit("Sprouting");
        reveal_with_fuel(key_less, 3);
    }
    push_word_above(&mut words, "Stewing", Ghost("Sprouting"@), Ghost("Spinning"@));
    assert(key_less("Stewing"@, "Sublimating"@) && "Sublimating"@.len() > 0) by {
        reveal_strlit("Sublimating");
        reveal_strlit("Stewing");
        reveal_with_fuel(key_less, 3);
    }
    push_word_above(&mut words, "Sublimating", Ghost("Stewing"@), Ghost("Sprouting"@));
    assert(key_less("Sublimating"@, "Swirling"@) && "Swirling"@.len() > 0) by {
        reveal_strlit("Swirling");
        reveal_strlit("Sublimating");
        reveal_with_fuel(key_less, 3);
    }
    push_word_above(&mut words, "Swirling", Ghost("Sublimating"@), Ghost("Stewing"@));
    assert(key_less("Swirling"@, "Swooping"@) && "Swooping"@.len() > 0) by {
        reveal_strlit("Swooping");
        reveal_strlit("Swirling");
        reveal_with_fuel(key_less, 4);
    }
    push_word_above(&mut words, "Swooping", Ghost("Swirling"@), Ghost("Sublimating"@));
    assert(key_less("Swooping"@, "Symbioting"@) && "Symbioting"@.len() > 0) by {
        reveal_strlit("Symbioting");
        reveal_strlit("Swooping");
        reveal_with_fuel(key_less, 3);
    }
    push_word_above(&mut words, "Symbioting", Ghost("Swooping"@), Ghost("Swirling"@));
    assert(key_less("Symbioting"@, "Synthesizing"@) && "Synthesizing"@.len() > 0) by {
        reveal_strlit("Synthesizing");
        reveal_strlit("Symbioting");
        reveal_with_fuel(key_less, 4);
    }
    push_word_above(&mut words, "Synthesizing", Ghost("Symbioting"@), Ghost("Swooping"@));
    assert(key_less("Synthesizing"@, "Tempering"@) && "Tempering"@.len() > 0) by {
        reveal_strlit("Tempering");
        reveal_strlit("Synthesizing");
        reveal_with_fuel(key_less, 2);
    }
    push_word_above(&mut words, "Tempering", Ghost("Synthesizing"@), Ghost("Symbioting"@));
    assert(key_less("Tempering"@, "Thinking"@) && "Thinking"@.len() > 0) by {
        reveal_strlit("Thinking");
        reveal_strlit("Tempering");
        reveal_with_fuel(key_less, 3);
    }
    push_word_above(&mut words, "Thinking", Ghost("Tempering"@), Ghost("Synthesizing"@));
    assert(key_less("Thinking"@, "Thundering"@) && "Thundering"@.len() > 0) by {
        reveal_strlit("Thundering");
        reveal_strlit("Thinking");
        reveal_with_fuel(key_less, 4);
    }
    push_word_above(&mut words, "Thundering", Ghost("Thinking"@), Ghost("Tempering"@));
    assert(key_less("Thundering"@, "Tinkering"@) && "Tinkering"@.len() > 0) by {
        reveal_strlit("Tinkering");
        reveal_strlit("Thundering");
        reveal_with_fuel(key_less, 3);
    }
    push_word_above(&mut words, "Tinkering", Ghost("Thundering"@), Ghost("Thinking"@));
    assert(key_less("Tinkering"@, "Tomfoolering"@) && "Tomfoolering"@.len() > 0) by {
        reveal_strlit("Tomfoolering");
        reveal_strlit("Tinkering");
        reveal_with_fuel(key_less, 3);
    }
    push_word_above(&mut words, "Tomfoolering", Ghost("Tinkering"@), Ghost("Thundering"@));
    assert(key_less("Tomfoolering"@, "Topsy-turvying"@) && "Topsy-turvying"@.len() > 0) by {
        reveal_strlit("Topsy-turvying");
        reveal_strlit("Tomfoolering");
        reveal_with_fuel(key_less, 4);
    }
    push_word_above(&mut words, "Topsy-turvying", Ghost("Tomfoolering"@), Ghost("Tinkering"@));
    assert(key_less("Topsy-turvying"@, "Transfiguring"@) && "Transfiguring"@.len() > 0) by {
        reveal_strlit("Transfiguring");
        reveal_strlit("Topsy-turvying");
        reveal_with_fuel(key_less, 3);
    }
    push_word_above(&mut words, "Transfiguring", Ghost("Topsy-turvying"@), Ghost("Tomfoolering"@));
    assert(key_less("Transfiguring"@, "Transmuting"@) && "Transmuting"@.len() > 0) by {
        reveal_strlit("Transmuting");
        reveal_strlit("Transfiguring");
        reveal_with_fuel(key_less, 7);
    }
    push_word_above(&mut words, "Transmuting", Ghost("Transfiguring"@), Ghost("Topsy-turvying"@));
    assert(key_less("Transmuting"@, "Twisting"@) && "Twisting"@.len() > 0) by {
        reveal_strlit("Twisting");
        reveal_strlit("Transmuting");
        reveal_with_fuel(key_less, 3);
    }
    push_word_above(&mut words, "Twisting", Ghost("Transmuting"@), Ghost("Transfiguring"@));
    assert(key_less("Twisting"@, "Undulating"@) && "Undulating"@.len() > 0) by {
        reveal_strlit("Undulating");
        reveal_strlit("Twisting");
        reveal_with_fuel(key_less, 2);
    }
    push_word_above(&mut words, "Undulating", Ghost("Twisting"@), Ghost("Transmuting"@));
    assert(key_less("Undulating"@, "Unfurling"@) && "Unfurling"@.len() > 0) by {
        reveal_strlit("Unfurling");
        reveal_strlit("Undulating");
        reveal_with_fuel(key_less, 4);
    }
    push_word_above(&mut words, "Unfurling", Ghost("Undulating"@), Ghost("Twisting"@));
    assert(key_less("Unfurling"@, "Unravelling"@) && "Unravelling"@.len() > 0) by {
        reveal_strlit("Unravelling");
        reveal_strlit("Unfurling");
        reveal_with_fuel(key_less, 4);
    }
    push_word_above(&mut words, "Unravelling", Ghost("Unfurling"@), Ghost("Undulating"@));
    assert(key_less("Unravelling"@, "Vibing"@) && "Vibing"@.len() > 0) by {
        reveal_strlit("Vibing");
        reveal_strlit("Unravelling");
        reveal_with_fuel(key_less, 2);
    }
    push_word_above(&mut words, "Vibing", Ghost("Unravelling"@), Ghost("Unfurling"@));
    assert(key_less("Vibing"@, "Waddling"@) && "Waddling"@.len() > 0) by {
        reveal_strlit("Waddling");
        reveal_strlit("Vibing");
        reveal_with_fuel(key_less, 2);
    }
    push_word_above(&mut words, "Waddling", Ghost("Vibing"@), Ghost("Unravelling"@));
    assert(key_less("Waddling"@, "Wandering"@) && "Wandering"@.len() > 0) by {
        reveal_strlit("Wandering");
        reveal_strlit("Waddling");
        reveal_with_fuel(key_less, 4);
    }
    push_word_above(&mut words, "Wandering", Ghost("Waddling"@), Ghost("Vibing"@));
    assert(key_less("Wandering"@, "Warping"@) && "Warping"@.len() > 0) by {
        reveal_strlit("Warping");
        reveal_strlit("Wandering");
        reveal_with_fuel(key_less, 4);
    }
    push_word_above(&mut words, "Warping", Ghost("Wandering"@), Ghost("Waddling"@));
    assert(key_less("Warping"@, "Whatchamacalliting"@) && "Whatchamacalliting"@.len() > 0) by {
        reveal_strlit("Whatchamacalliting");
        reveal_strlit("Warping");
        reveal_with_fuel(key_less, 3);
    }
    push_word_above(&mut words, "Whatchamacalliting", Ghost("Warping"@), Ghost("Wandering"@));
    assert(key_less("Whatchamacalliting"@, "Whirlpooling"@) && "Whirlpooling"@.len() > 0) by {
        reveal_strlit("Whirlpooling");
        reveal_strlit("Whatchamacalliting");
        reveal_with_fuel(key_less, 4);
    }
    push_word_above(&mut words, "Whirlpooling", Ghost("Whatchamacalliting"@), Ghost("Warping"@));
    assert(key_less("Whirlpooling"@, "Whirring"@) && "Whirring"@.len() > 0) by {
        reveal_strlit("Whirring");
        reveal_strlit("Whirlpooling");
        reveal_with_fuel(key_less, 6);
    }
    push_word_above(&mut words, "Whirring", Ghost("Whirlpooling"@), Ghost("Whatchamacalliting"@));
    assert(key_less("Whirring"@, "Whisking"@) && "Whisking"@.len() > 0) by {
        reveal_strlit("Whisking");
        reveal_strlit("Whirring");
        reveal_with_fuel(key_less, 5);
    }
    push_word_above(&mut words, "Whisking", Ghost("Whirring"@), Ghost("Whirlpooling"@));
    assert(key_less("Whisking"@, "Wibbling"@) && "Wibbling"@.len() > 0) by {
        reveal_strlit("Wibbling");
        reveal_strlit("Whisking");
        reveal_with_fuel(key_less, 3);
    }
    push_word_above(&mut words, "Wibbling", Ghost("Whisking"@), Ghost("Whirring"@));
    assert(key_less("Wibbling"@, "Working"@) && "Working"@.len() > 0) by {
        reveal_strlit("Working");
        reveal_strlit("Wibbling");
        reveal_with_fuel(key_less, 3);
    }
    push_word_above(&mut words, "Working", Ghost("Wibbling"@), Ghost("Whisking"@));
    assert(key_less("Working"@, "Wrangling"@) && "Wrangling"@.len() > 0) by {
        reveal_strlit("Wrangling");
        reveal_strlit("Working");
        reveal_with_fuel(key_less, 3);
    }
    push_word_above(&mut words, "Wrangling", Ghost("Working"@), Ghost("Wibbling"@));
    assert(key_less("Wrangling"@, "Zesting"@) && "Zesting"@.len() > 0) by {
        reveal_strlit("Zesting");
        reveal_strlit("Wrangling");
        reveal_with_fuel(key_less, 2);
    }
    push_word_above(&mut words, "Zesting", Ghost("Wrangling"@), Ghost("Working"@));
    assert(key_less("Zesting"@, "Zigzagging"@) && "Zigzagging"@.len() > 0) by {
        reveal_strlit("Zigzagging");
        reveal_strlit("Zesting");
        reveal_with_fuel(key_less, 3);
    }
    push_word_above(&mut words, "Zigzagging", Ghost("Zesting"@), Ghost("Wrangling"@));

    words
}

/// `rand::rngs::ThreadRng`, the thread-local generator, as an opaque value.
#[verifier::external_type_specification]
#[verifier::external_body]
pub struct ExThreadRng(rand::rngs::ThreadRng);

/// The thread's random number generator (`rand::rng`).
#[verifier::external_body]
fn thread_rng() -> rand::rngs::ThreadRng {
    rand::rng()
}

/// A uniformly random index below `len` (`Rng::random_range(0..len)`, which
/// panics on an empty range). Claims only that the index is below `len`.
#[verifier::external_body]
fn random_index_below(rng: &mut rand::rngs::ThreadRng, len: usize) -> (r: usize)
    requires
        len > 0,
    ensures
        r < len,
{
    rng.random_range(0..len)
}

/// A random index into `words` (0 for an empty list); the word it picks is the
/// one `working_status_word_for_index` returns.
pub fn choose_working_status_word_index(words: &[String]) -> (r: usize)
    ensures
        words@.len() == 0 ==> r == 0,
        words@.len() > 0 ==> r < words@.len(),
{
    if words.len() == 0 {
        0
    } else {
        let mut rng = thread_rng();
        random_index_below(&mut rng, words.len())
    }
}

/// The status word at `index`, or `DEFAULT_WORKING_STATUS` when there are no
/// words.
pub fn working_status_word_for_index(words: &[String], index: usize) -> (r: String)
    requires
        words@.len() == 0 || index < words@.len(),
    ensures
        r@ == (if words@.len() == 0 {
            DEFAULT_WORKING_STATUS@
        } else {
            words@[index as int]@
        }),
{
    if words.len() == 0 {
        return String::from_str(DEFAULT_WORKING_STATUS);
    }
    words[index].clone()
}

} // verus!

