//! The sites of the Stack Exchange network.

use crate::content::Post;
use crate::html::dom::fragment;
use crate::html::{render, rendered};
use crate::route::{path_segments, segments};
use crate::text::{number, parse_number, same, to_chars, to_string, views};
use crate::LINE_LENGTH;
use vstd::prelude::*;

verus! {

/// A name that may be missing, as a mathematical value.
pub open spec fn name_view(name: Option<&'static str>) -> Option<Seq<char>> {
    match name {
        Some(name) => Some(name@),
        None => None,
    }
}

/// Part 1 of the list of sites: the name that the API has for the site
/// at `host`.
pub open spec fn listed_0(host: Seq<char>) -> Option<Seq<char>> {
    if host == "stackoverflow.com"@ || host == "www.stackoverflow.com"@ || host == "facebook.stackoverflow.com"@ {
        Some("stackoverflow"@)
    } else if host == "serverfault.com"@ {
        Some("serverfault"@)
    } else if host == "superuser.com"@ {
        Some("superuser"@)
    } else if host == "meta.stackexchange.com"@ {
        Some("meta"@)
    } else if host == "webapps.stackexchange.com"@ || host == "nothingtoinstall.com"@ {
        Some("webapps"@)
    } else if host == "webapps.meta.stackexchange.com"@ || host == "meta.nothingtoinstall.com"@ || host == "meta.webapps.stackexchange.com"@ {
        Some("webapps.meta"@)
    } else if host == "gaming.stackexchange.com"@ || host == "arqade.com"@ || host == "thearqade.com"@ {
        Some("gaming"@)
    } else if host == "gaming.meta.stackexchange.com"@ || host == "meta.arqade.com"@ || host == "meta.thearqade.com"@ || host == "meta.gaming.stackexchange.com"@ {
        Some("gaming.meta"@)
    } else if host == "webmasters.stackexchange.com"@ || host == "webmaster.stackexchange.com"@ {
        Some("webmasters"@)
    } else if host == "webmasters.meta.stackexchange.com"@ || host == "meta.webmaster.stackexchange.com"@ || host == "meta.webmasters.stackexchange.com"@ {
        Some("webmasters.meta"@)
    } else if host == "cooking.stackexchange.com"@ || host == "seasonedadvice.com"@ {
        Some("cooking"@)
    } else if host == "cooking.meta.stackexchange.com"@ || host == "meta.seasonedadvice.com"@ || host == "meta.cooking.stackexchange.com"@ {
        Some("cooking.meta"@)
    } else if host == "gamedev.stackexchange.com"@ {
        Some("gamedev"@)
    } else if host == "gamedev.meta.stackexchange.com"@ || host == "meta.gamedev.stackexchange.com"@ {
        Some("gamedev.meta"@)
    } else if host == "photo.stackexchange.com"@ || host == "photography.stackexchange.com"@ || host == "photos.stackexchange.com"@ {
        Some("photo"@)
    } else if host == "photo.meta.stackexchange.com"@ || host == "meta.photography.stackexchange.com"@ || host == "meta.photos.stackexchange.com"@ || host == "meta.photo.stackexchange.com"@ {
        Some("photo.meta"@)
    } else {
        None
    }
}

fn find_0(host: &[char]) -> (tag: Option<&'static str>)
    ensures
        name_view(tag) == listed_0(host@),
{
    if same(host, "stackoverflow.com") || same(host, "www.stackoverflow.com") || same(host, "facebook.stackoverflow.com") {
        Some("stackoverflow")
    } else if same(host, "serverfault.com") {
        Some("serverfault")
    } else if same(host, "superuser.com") {
        Some("superuser")
    } else if same(host, "meta.stackexchange.com") {
        Some("meta")
    } else if same(host, "webapps.stackexchange.com") || same(host, "nothingtoinstall.com") {
        Some("webapps")
    } else if same(host, "webapps.meta.stackexchange.com") || same(host, "meta.nothingtoinstall.com") || same(host, "meta.webapps.stackexchange.com") {
        Some("webapps.meta")
    } else if same(host, "gaming.stackexchange.com") || same(host, "arqade.com") || same(host, "thearqade.com") {
        Some("gaming")
    } else if same(host, "gaming.meta.stackexchange.com") || same(host, "meta.arqade.com") || same(host, "meta.thearqade.com") || same(host, "meta.gaming.stackexchange.com") {
        Some("gaming.meta")
    } else if same(host, "webmasters.stackexchange.com") || same(host, "webmaster.stackexchange.com") {
        Some("webmasters")
    } else if same(host, "webmasters.meta.stackexchange.com") || same(host, "meta.webmaster.stackexchange.com") || same(host, "meta.webmasters.stackexchange.com") {
        Some("webmasters.meta")
    } else if same(host, "cooking.stackexchange.com") || same(host, "seasonedadvice.com") {
        Some("cooking")
    } else if same(host, "cooking.meta.stackexchange.com") || same(host, "meta.seasonedadvice.com") || same(host, "meta.cooking.stackexchange.com") {
        Some("cooking.meta")
    } else if same(host, "gamedev.stackexchange.com") {
        Some("gamedev")
    } else if same(host, "gamedev.meta.stackexchange.com") || same(host, "meta.gamedev.stackexchange.com") {
        Some("gamedev.meta")
    } else if same(host, "photo.stackexchange.com") || same(host, "photography.stackexchange.com") || same(host, "photos.stackexchange.com") {
        Some("photo")
    } else if same(host, "photo.meta.stackexchange.com") || same(host, "meta.photography.stackexchange.com") || same(host, "meta.photos.stackexchange.com") || same(host, "meta.photo.stackexchange.com") {
        Some("photo.meta")
    } else {
        None
    }
}

/// Part 2 of the list of sites: the name that the API has for the site
/// at `host`.
pub open spec fn listed_1(host: Seq<char>) -> Option<Seq<char>> {
    if host == "stats.stackexchange.com"@ || host == "statistics.stackexchange.com"@ || host == "crossvalidated.com"@ {
        Some("stats"@)
    } else if host == "stats.meta.stackexchange.com"@ || host == "meta.statistics.stackexchange.com"@ || host == "meta.stats.stackexchange.com"@ {
        Some("stats.meta"@)
    } else if host == "math.stackexchange.com"@ || host == "maths.stackexchange.com"@ || host == "mathematics.stackexchange.com"@ {
        Some("math"@)
    } else if host == "math.meta.stackexchange.com"@ || host == "meta.math.stackexchange.com"@ {
        Some("math.meta"@)
    } else if host == "diy.stackexchange.com"@ {
        Some("diy"@)
    } else if host == "diy.meta.stackexchange.com"@ || host == "meta.diy.stackexchange.com"@ {
        Some("diy.meta"@)
    } else if host == "meta.superuser.com"@ {
        Some("meta.superuser"@)
    } else if host == "meta.serverfault.com"@ {
        Some("meta.serverfault"@)
    } else if host == "gis.stackexchange.com"@ {
        Some("gis"@)
    } else if host == "gis.meta.stackexchange.com"@ || host == "meta.gis.stackexchange.com"@ {
        Some("gis.meta"@)
    } else if host == "tex.stackexchange.com"@ {
        Some("tex"@)
    } else if host == "tex.meta.stackexchange.com"@ || host == "meta.tex.stackexchange.com"@ {
        Some("tex.meta"@)
    } else if host == "askubuntu.com"@ || host == "ubuntu.stackexchange.com"@ {
        Some("askubuntu"@)
    } else if host == "meta.askubuntu.com"@ || host == "meta.ubuntu.stackexchange.com"@ {
        Some("meta.askubuntu"@)
    } else if host == "money.stackexchange.com"@ || host == "basicallymoney.com"@ || host == "www.basicallymoney.com"@ {
        Some("money"@)
    } else if host == "money.meta.stackexchange.com"@ || host == "meta.money.stackexchange.com"@ {
        Some("money.meta"@)
    } else {
        None
    }
}

fn find_1(host: &[char]) -> (tag: Option<&'static str>)
    ensures
        name_view(tag) == listed_1(host@),
{
    if same(host, "stats.stackexchange.com") || same(host, "statistics.stackexchange.com") || same(host, "crossvalidated.com") {
        Some("stats")
    } else if same(host, "stats.meta.stackexchange.com") || same(host, "meta.statistics.stackexchange.com") || same(host, "meta.stats.stackexchange.com") {
        Some("stats.meta")
    } else if same(host, "math.stackexchange.com") || same(host, "maths.stackexchange.com") || same(host, "mathematics.stackexchange.com") {
        Some("math")
    } else if same(host, "math.meta.stackexchange.com") || same(host, "meta.math.stackexchange.com") {
        Some("math.meta")
    } else if same(host, "diy.stackexchange.com") {
        Some("diy")
    } else if same(host, "diy.meta.stackexchange.com") || same(host, "meta.diy.stackexchange.com") {
        Some("diy.meta")
    } else if same(host, "meta.superuser.com") {
        Some("meta.superuser")
    } else if same(host, "meta.serverfault.com") {
        Some("meta.serverfault")
    } else if same(host, "gis.stackexchange.com") {
        Some("gis")
    } else if same(host, "gis.meta.stackexchange.com") || same(host, "meta.gis.stackexchange.com") {
        Some("gis.meta")
    } else if same(host, "tex.stackexchange.com") {
        Some("tex")
    } else if same(host, "tex.meta.stackexchange.com") || same(host, "meta.tex.stackexchange.com") {
        Some("tex.meta")
    } else if same(host, "askubuntu.com") || same(host, "ubuntu.stackexchange.com") {
        Some("askubuntu")
    } else if same(host, "meta.askubuntu.com") || same(host, "meta.ubuntu.stackexchange.com") {
        Some("meta.askubuntu")
    } else if same(host, "money.stackexchange.com") || same(host, "basicallymoney.com") || same(host, "www.basicallymoney.com") {
        Some("money")
    } else if same(host, "money.meta.stackexchange.com") || same(host, "meta.money.stackexchange.com") {
        Some("money.meta")
    } else {
        None
    }
}

/// Part 3 of the list of sites: the name that the API has for the site
/// at `host`.
pub open spec fn listed_2(host: Seq<char>) -> Option<Seq<char>> {
    if host == "english.stackexchange.com"@ || host == "elu.stackexchange.com"@ {
        Some("english"@)
    } else if host == "english.meta.stackexchange.com"@ || host == "meta.english.stackexchange.com"@ {
        Some("english.meta"@)
    } else if host == "stackapps.com"@ {
        Some("stackapps"@)
    } else if host == "ux.stackexchange.com"@ || host == "ui.stackexchange.com"@ {
        Some("ux"@)
    } else if host == "ux.meta.stackexchange.com"@ || host == "meta.ui.stackexchange.com"@ || host == "meta.ux.stackexchange.com"@ {
        Some("ux.meta"@)
    } else if host == "unix.stackexchange.com"@ || host == "linux.stackexchange.com"@ {
        Some("unix"@)
    } else if host == "unix.meta.stackexchange.com"@ || host == "meta.linux.stackexchange.com"@ || host == "meta.unix.stackexchange.com"@ {
        Some("unix.meta"@)
    } else if host == "wordpress.stackexchange.com"@ {
        Some("wordpress"@)
    } else if host == "wordpress.meta.stackexchange.com"@ || host == "meta.wordpress.stackexchange.com"@ {
        Some("wordpress.meta"@)
    } else if host == "cstheory.stackexchange.com"@ {
        Some("cstheory"@)
    } else if host == "cstheory.meta.stackexchange.com"@ || host == "meta.cstheory.stackexchange.com"@ {
        Some("cstheory.meta"@)
    } else if host == "apple.stackexchange.com"@ || host == "askdifferent.com"@ {
        Some("apple"@)
    } else if host == "apple.meta.stackexchange.com"@ || host == "meta.apple.stackexchange.com"@ {
        Some("apple.meta"@)
    } else if host == "rpg.stackexchange.com"@ {
        Some("rpg"@)
    } else if host == "rpg.meta.stackexchange.com"@ || host == "meta.rpg.stackexchange.com"@ {
        Some("rpg.meta"@)
    } else if host == "bicycles.stackexchange.com"@ || host == "bicycle.stackexchange.com"@ || host == "cycling.stackexchange.com"@ || host == "bikes.stackexchange.com"@ {
        Some("bicycles"@)
    } else {
        None
    }
}

fn find_2(host: &[char]) -> (tag: Option<&'static str>)
    ensures
        name_view(tag) == listed_2(host@),
{
    if same(host, "english.stackexchange.com") || same(host, "elu.stackexchange.com") {
        Some("english")
    } else if same(host, "english.meta.stackexchange.com") || same(host, "meta.english.stackexchange.com") {
        Some("english.meta")
    } else if same(host, "stackapps.com") {
        Some("stackapps")
    } else if same(host, "ux.stackexchange.com") || same(host, "ui.stackexchange.com") {
        Some("ux")
    } else if same(host, "ux.meta.stackexchange.com") || same(host, "meta.ui.stackexchange.com") || same(host, "meta.ux.stackexchange.com") {
        Some("ux.meta")
    } else if same(host, "unix.stackexchange.com") || same(host, "linux.stackexchange.com") {
        Some("unix")
    } else if same(host, "unix.meta.stackexchange.com") || same(host, "meta.linux.stackexchange.com") || same(host, "meta.unix.stackexchange.com") {
        Some("unix.meta")
    } else if same(host, "wordpress.stackexchange.com") {
        Some("wordpress")
    } else if same(host, "wordpress.meta.stackexchange.com") || same(host, "meta.wordpress.stackexchange.com") {
        Some("wordpress.meta")
    } else if same(host, "cstheory.stackexchange.com") {
        Some("cstheory")
    } else if same(host, "cstheory.meta.stackexchange.com") || same(host, "meta.cstheory.stackexchange.com") {
        Some("cstheory.meta")
    } else if same(host, "apple.stackexchange.com") || same(host, "askdifferent.com") {
        Some("apple")
    } else if same(host, "apple.meta.stackexchange.com") || same(host, "meta.apple.stackexchange.com") {
        Some("apple.meta")
    } else if same(host, "rpg.stackexchange.com") {
        Some("rpg")
    } else if same(host, "rpg.meta.stackexchange.com") || same(host, "meta.rpg.stackexchange.com") {
        Some("rpg.meta")
    } else if same(host, "bicycles.stackexchange.com") || same(host, "bicycle.stackexchange.com") || same(host, "cycling.stackexchange.com") || same(host, "bikes.stackexchange.com") {
        Some("bicycles")
    } else {
        None
    }
}

/// Part 4 of the list of sites: the name that the API has for the site
/// at `host`.
pub open spec fn listed_3(host: Seq<char>) -> Option<Seq<char>> {
    if host == "bicycles.meta.stackexchange.com"@ || host == "meta.bicycle.stackexchange.com"@ || host == "meta.bicycles.stackexchange.com"@ {
        Some("bicycles.meta"@)
    } else if host == "softwareengineering.stackexchange.com"@ || host == "programmer.stackexchange.com"@ || host == "programmers.stackexchange.com"@ || host == "swe.stackexchange.com"@ {
        Some("softwareengineering"@)
    } else if host == "softwareengineering.meta.stackexchange.com"@ || host == "meta.programmers.stackexchange.com"@ || host == "meta.softwareengineering.stackexchange.com"@ || host == "meta.swe.stackexchange.com"@ {
        Some("softwareengineering.meta"@)
    } else if host == "electronics.stackexchange.com"@ || host == "chiphacker.com"@ || host == "www.chiphacker.com"@ {
        Some("electronics"@)
    } else if host == "electronics.meta.stackexchange.com"@ || host == "meta.electronics.stackexchange.com"@ {
        Some("electronics.meta"@)
    } else if host == "android.stackexchange.com"@ {
        Some("android"@)
    } else if host == "android.meta.stackexchange.com"@ || host == "meta.android.stackexchange.com"@ {
        Some("android.meta"@)
    } else if host == "boardgames.stackexchange.com"@ || host == "boardgame.stackexchange.com"@ {
        Some("boardgames"@)
    } else if host == "boardgames.meta.stackexchange.com"@ || host == "meta.boardgames.stackexchange.com"@ {
        Some("boardgames.meta"@)
    } else if host == "physics.stackexchange.com"@ {
        Some("physics"@)
    } else if host == "physics.meta.stackexchange.com"@ || host == "meta.physics.stackexchange.com"@ {
        Some("physics.meta"@)
    } else if host == "homebrew.stackexchange.com"@ || host == "homebrewing.stackexchange.com"@ || host == "brewadvice.com"@ {
        Some("homebrew"@)
    } else if host == "homebrew.meta.stackexchange.com"@ || host == "meta.homebrewing.stackexchange.com"@ || host == "meta.homebrew.stackexchange.com"@ {
        Some("homebrew.meta"@)
    } else if host == "security.stackexchange.com"@ || host == "itsecurity.stackexchange.com"@ {
        Some("security"@)
    } else if host == "security.meta.stackexchange.com"@ || host == "meta.itsecurity.stackexchange.com"@ || host == "meta.security.stackexchange.com"@ {
        Some("security.meta"@)
    } else if host == "writing.stackexchange.com"@ || host == "writer.stackexchange.com"@ || host == "writers.stackexchange.com"@ {
        Some("writing"@)
    } else {
        None
    }
}

fn find_3(host: &[char]) -> (tag: Option<&'static str>)
    ensures
        name_view(tag) == listed_3(host@),
{
    if same(host, "bicycles.meta.stackexchange.com") || same(host, "meta.bicycle.stackexchange.com") || same(host, "meta.bicycles.stackexchange.com") {
        Some("bicycles.meta")
    } else if same(host, "softwareengineering.stackexchange.com") || same(host, "programmer.stackexchange.com") || same(host, "programmers.stackexchange.com") || same(host, "swe.stackexchange.com") {
        Some("softwareengineering")
    } else if same(host, "softwareengineering.meta.stackexchange.com") || same(host, "meta.programmers.stackexchange.com") || same(host, "meta.softwareengineering.stackexchange.com") || same(host, "meta.swe.stackexchange.com") {
        Some("softwareengineering.meta")
    } else if same(host, "electronics.stackexchange.com") || same(host, "chiphacker.com") || same(host, "www.chiphacker.com") {
        Some("electronics")
    } else if same(host, "electronics.meta.stackexchange.com") || same(host, "meta.electronics.stackexchange.com") {
        Some("electronics.meta")
    } else if same(host, "android.stackexchange.com") {
        Some("android")
    } else if same(host, "android.meta.stackexchange.com") || same(host, "meta.android.stackexchange.com") {
        Some("android.meta")
    } else if same(host, "boardgames.stackexchange.com") || same(host, "boardgame.stackexchange.com") {
        Some("boardgames")
    } else if same(host, "boardgames.meta.stackexchange.com") || same(host, "meta.boardgames.stackexchange.com") {
        Some("boardgames.meta")
    } else if same(host, "physics.stackexchange.com") {
        Some("physics")
    } else if same(host, "physics.meta.stackexchange.com") || same(host, "meta.physics.stackexchange.com") {
        Some("physics.meta")
    } else if same(host, "homebrew.stackexchange.com") || same(host, "homebrewing.stackexchange.com") || same(host, "brewadvice.com") {
        Some("homebrew")
    } else if same(host, "homebrew.meta.stackexchange.com") || same(host, "meta.homebrewing.stackexchange.com") || same(host, "meta.homebrew.stackexchange.com") {
        Some("homebrew.meta")
    } else if same(host, "security.stackexchange.com") || same(host, "itsecurity.stackexchange.com") {
        Some("security")
    } else if same(host, "security.meta.stackexchange.com") || same(host, "meta.itsecurity.stackexchange.com") || same(host, "meta.security.stackexchange.com") {
        Some("security.meta")
    } else if same(host, "writing.stackexchange.com") || same(host, "writer.stackexchange.com") || same(host, "writers.stackexchange.com") {
        Some("writing")
    } else {
        None
    }
}

/// Part 5 of the list of sites: the name that the API has for the site
/// at `host`.
pub open spec fn listed_4(host: Seq<char>) -> Option<Seq<char>> {
    if host == "writing.meta.stackexchange.com"@ || host == "meta.writing.stackexchange.com"@ || host == "meta.writers.stackexchange.com"@ || host == "writers.meta.stackexchange.com"@ {
        Some("writing.meta"@)
    } else if host == "video.stackexchange.com"@ || host == "avp.stackexchange.com"@ {
        Some("video"@)
    } else if host == "video.meta.stackexchange.com"@ || host == "meta.avp.stackexchange.com"@ || host == "meta.video.stackexchange.com"@ {
        Some("video.meta"@)
    } else if host == "graphicdesign.stackexchange.com"@ || host == "graphicsdesign.stackexchange.com"@ || host == "graphicdesigns.stackexchange.com"@ {
        Some("graphicdesign"@)
    } else if host == "graphicdesign.meta.stackexchange.com"@ || host == "meta.graphicdesign.stackexchange.com"@ {
        Some("graphicdesign.meta"@)
    } else if host == "dba.stackexchange.com"@ {
        Some("dba"@)
    } else if host == "dba.meta.stackexchange.com"@ || host == "meta.dba.stackexchange.com"@ {
        Some("dba.meta"@)
    } else if host == "scifi.stackexchange.com"@ || host == "sciencefiction.stackexchange.com"@ || host == "fantasy.stackexchange.com"@ {
        Some("scifi"@)
    } else if host == "scifi.meta.stackexchange.com"@ || host == "meta.scifi.stackexchange.com"@ {
        Some("scifi.meta"@)
    } else if host == "codereview.stackexchange.com"@ {
        Some("codereview"@)
    } else if host == "codereview.meta.stackexchange.com"@ || host == "meta.codereview.stackexchange.com"@ {
        Some("codereview.meta"@)
    } else if host == "codegolf.stackexchange.com"@ {
        Some("codegolf"@)
    } else if host == "codegolf.meta.stackexchange.com"@ || host == "meta.codegolf.stackexchange.com"@ {
        Some("codegolf.meta"@)
    } else if host == "quant.stackexchange.com"@ {
        Some("quant"@)
    } else if host == "quant.meta.stackexchange.com"@ || host == "meta.quant.stackexchange.com"@ {
        Some("quant.meta"@)
    } else if host == "pm.stackexchange.com"@ {
        Some("pm"@)
    } else {
        None
    }
}

fn find_4(host: &[char]) -> (tag: Option<&'static str>)
    ensures
        name_view(tag) == listed_4(host@),
{
    if same(host, "writing.meta.stackexchange.com") || same(host, "meta.writing.stackexchange.com") || same(host, "meta.writers.stackexchange.com") || same(host, "writers.meta.stackexchange.com") {
        Some("writing.meta")
    } else if same(host, "video.stackexchange.com") || same(host, "avp.stackexchange.com") {
        Some("video")
    } else if same(host, "video.meta.stackexchange.com") || same(host, "meta.avp.stackexchange.com") || same(host, "meta.video.stackexchange.com") {
        Some("video.meta")
    } else if same(host, "graphicdesign.stackexchange.com") || same(host, "graphicsdesign.stackexchange.com") || same(host, "graphicdesigns.stackexchange.com") {
        Some("graphicdesign")
    } else if same(host, "graphicdesign.meta.stackexchange.com") || same(host, "meta.graphicdesign.stackexchange.com") {
        Some("graphicdesign.meta")
    } else if same(host, "dba.stackexchange.com") {
        Some("dba")
    } else if same(host, "dba.meta.stackexchange.com") || same(host, "meta.dba.stackexchange.com") {
        Some("dba.meta")
    } else if same(host, "scifi.stackexchange.com") || same(host, "sciencefiction.stackexchange.com") || same(host, "fantasy.stackexchange.com") {
        Some("scifi")
    } else if same(host, "scifi.meta.stackexchange.com") || same(host, "meta.scifi.stackexchange.com") {
        Some("scifi.meta")
    } else if same(host, "codereview.stackexchange.com") {
        Some("codereview")
    } else if same(host, "codereview.meta.stackexchange.com") || same(host, "meta.codereview.stackexchange.com") {
        Some("codereview.meta")
    } else if same(host, "codegolf.stackexchange.com") {
        Some("codegolf")
    } else if same(host, "codegolf.meta.stackexchange.com") || same(host, "meta.codegolf.stackexchange.com") {
        Some("codegolf.meta")
    } else if same(host, "quant.stackexchange.com") {
        Some("quant")
    } else if same(host, "quant.meta.stackexchange.com") || same(host, "meta.quant.stackexchange.com") {
        Some("quant.meta")
    } else if same(host, "pm.stackexchange.com") {
        Some("pm")
    } else {
        None
    }
}

/// Part 6 of the list of sites: the name that the API has for the site
/// at `host`.
pub open spec fn listed_5(host: Seq<char>) -> Option<Seq<char>> {
    if host == "pm.meta.stackexchange.com"@ || host == "meta.pm.stackexchange.com"@ {
        Some("pm.meta"@)
    } else if host == "skeptics.stackexchange.com"@ || host == "skeptic.stackexchange.com"@ || host == "skepticexchange.com"@ {
        Some("skeptics"@)
    } else if host == "skeptics.meta.stackexchange.com"@ || host == "meta.skeptics.stackexchange.com"@ {
        Some("skeptics.meta"@)
    } else if host == "fitness.stackexchange.com"@ {
        Some("fitness"@)
    } else if host == "fitness.meta.stackexchange.com"@ || host == "meta.fitness.stackexchange.com"@ {
        Some("fitness.meta"@)
    } else if host == "drupal.stackexchange.com"@ {
        Some("drupal"@)
    } else if host == "drupal.meta.stackexchange.com"@ || host == "meta.drupal.stackexchange.com"@ {
        Some("drupal.meta"@)
    } else if host == "mechanics.stackexchange.com"@ || host == "garage.stackexchange.com"@ {
        Some("mechanics"@)
    } else if host == "mechanics.meta.stackexchange.com"@ || host == "meta.garage.stackexchange.com"@ || host == "meta.mechanics.stackexchange.com"@ {
        Some("mechanics.meta"@)
    } else if host == "parenting.stackexchange.com"@ {
        Some("parenting"@)
    } else if host == "parenting.meta.stackexchange.com"@ || host == "meta.parenting.stackexchange.com"@ {
        Some("parenting.meta"@)
    } else if host == "sharepoint.stackexchange.com"@ || host == "sharepointoverflow.com"@ || host == "www.sharepointoverflow.com"@ {
        Some("sharepoint"@)
    } else if host == "sharepoint.meta.stackexchange.com"@ || host == "meta.sharepoint.stackexchange.com"@ {
        Some("sharepoint.meta"@)
    } else if host == "music.stackexchange.com"@ || host == "guitars.stackexchange.com"@ || host == "guitar.stackexchange.com"@ {
        Some("music"@)
    } else if host == "music.meta.stackexchange.com"@ || host == "meta.music.stackexchange.com"@ {
        Some("music.meta"@)
    } else if host == "sqa.stackexchange.com"@ {
        Some("sqa"@)
    } else {
        None
    }
}

fn find_5(host: &[char]) -> (tag: Option<&'static str>)
    ensures
        name_view(tag) == listed_5(host@),
{
    if same(host, "pm.meta.stackexchange.com") || same(host, "meta.pm.stackexchange.com") {
        Some("pm.meta")
    } else if same(host, "skeptics.stackexchange.com") || same(host, "skeptic.stackexchange.com") || same(host, "skepticexchange.com") {
        Some("skeptics")
    } else if same(host, "skeptics.meta.stackexchange.com") || same(host, "meta.skeptics.stackexchange.com") {
        Some("skeptics.meta")
    } else if same(host, "fitness.stackexchange.com") {
        Some("fitness")
    } else if same(host, "fitness.meta.stackexchange.com") || same(host, "meta.fitness.stackexchange.com") {
        Some("fitness.meta")
    } else if same(host, "drupal.stackexchange.com") {
        Some("drupal")
    } else if same(host, "drupal.meta.stackexchange.com") || same(host, "meta.drupal.stackexchange.com") {
        Some("drupal.meta")
    } else if same(host, "mechanics.stackexchange.com") || same(host, "garage.stackexchange.com") {
        Some("mechanics")
    } else if same(host, "mechanics.meta.stackexchange.com") || same(host, "meta.garage.stackexchange.com") || same(host, "meta.mechanics.stackexchange.com") {
        Some("mechanics.meta")
    } else if same(host, "parenting.stackexchange.com") {
        Some("parenting")
    } else if same(host, "parenting.meta.stackexchange.com") || same(host, "meta.parenting.stackexchange.com") {
        Some("parenting.meta")
    } else if same(host, "sharepoint.stackexchange.com") || same(host, "sharepointoverflow.com") || same(host, "www.sharepointoverflow.com") {
        Some("sharepoint")
    } else if same(host, "sharepoint.meta.stackexchange.com") || same(host, "meta.sharepoint.stackexchange.com") {
        Some("sharepoint.meta")
    } else if same(host, "music.stackexchange.com") || same(host, "guitars.stackexchange.com") || same(host, "guitar.stackexchange.com") {
        Some("music")
    } else if same(host, "music.meta.stackexchange.com") || same(host, "meta.music.stackexchange.com") {
        Some("music.meta")
    } else if same(host, "sqa.stackexchange.com") {
        Some("sqa")
    } else {
        None
    }
}

/// Part 7 of the list of sites: the name that the API has for the site
/// at `host`.
pub open spec fn listed_6(host: Seq<char>) -> Option<Seq<char>> {
    if host == "sqa.meta.stackexchange.com"@ || host == "meta.sqa.stackexchange.com"@ {
        Some("sqa.meta"@)
    } else if host == "judaism.stackexchange.com"@ || host == "mi.yodeya.com"@ || host == "yodeya.com"@ || host == "yodeya.stackexchange.com"@ || host == "miyodeya.com"@ {
        Some("judaism"@)
    } else if host == "judaism.meta.stackexchange.com"@ || host == "meta.judaism.stackexchange.com"@ {
        Some("judaism.meta"@)
    } else if host == "german.stackexchange.com"@ || host == "deutsch.stackexchange.com"@ {
        Some("german"@)
    } else if host == "german.meta.stackexchange.com"@ || host == "meta.german.stackexchange.com"@ {
        Some("german.meta"@)
    } else if host == "japanese.stackexchange.com"@ {
        Some("japanese"@)
    } else if host == "japanese.meta.stackexchange.com"@ || host == "meta.japanese.stackexchange.com"@ {
        Some("japanese.meta"@)
    } else if host == "philosophy.stackexchange.com"@ {
        Some("philosophy"@)
    } else if host == "philosophy.meta.stackexchange.com"@ || host == "meta.philosophy.stackexchange.com"@ {
        Some("philosophy.meta"@)
    } else if host == "gardening.stackexchange.com"@ || host == "landscaping.stackexchange.com"@ {
        Some("gardening"@)
    } else if host == "gardening.meta.stackexchange.com"@ || host == "meta.gardening.stackexchange.com"@ {
        Some("gardening.meta"@)
    } else if host == "travel.stackexchange.com"@ {
        Some("travel"@)
    } else if host == "travel.meta.stackexchange.com"@ || host == "meta.travel.stackexchange.com"@ {
        Some("travel.meta"@)
    } else if host == "crypto.stackexchange.com"@ || host == "cryptography.stackexchange.com"@ {
        Some("crypto"@)
    } else if host == "crypto.meta.stackexchange.com"@ || host == "meta.cryptography.stackexchange.com"@ || host == "meta.crypto.stackexchange.com"@ {
        Some("crypto.meta"@)
    } else if host == "dsp.stackexchange.com"@ || host == "signals.stackexchange.com"@ {
        Some("dsp"@)
    } else {
        None
    }
}

fn find_6(host: &[char]) -> (tag: Option<&'static str>)
    ensures
        name_view(tag) == listed_6(host@),
{
    if same(host, "sqa.meta.stackexchange.com") || same(host, "meta.sqa.stackexchange.com") {
        Some("sqa.meta")
    } else if same(host, "judaism.stackexchange.com") || same(host, "mi.yodeya.com") || same(host, "yodeya.com") || same(host, "yodeya.stackexchange.com") || same(host, "miyodeya.com") {
        Some("judaism")
    } else if same(host, "judaism.meta.stackexchange.com") || same(host, "meta.judaism.stackexchange.com") {
        Some("judaism.meta")
    } else if same(host, "german.stackexchange.com") || same(host, "deutsch.stackexchange.com") {
        Some("german")
    } else if same(host, "german.meta.stackexchange.com") || same(host, "meta.german.stackexchange.com") {
        Some("german.meta")
    } else if same(host, "japanese.stackexchange.com") {
        Some("japanese")
    } else if same(host, "japanese.meta.stackexchange.com") || same(host, "meta.japanese.stackexchange.com") {
        Some("japanese.meta")
    } else if same(host, "philosophy.stackexchange.com") {
        Some("philosophy")
    } else if same(host, "philosophy.meta.stackexchange.com") || same(host, "meta.philosophy.stackexchange.com") {
        Some("philosophy.meta")
    } else if same(host, "gardening.stackexchange.com") || same(host, "landscaping.stackexchange.com") {
        Some("gardening")
    } else if same(host, "gardening.meta.stackexchange.com") || same(host, "meta.gardening.stackexchange.com") {
        Some("gardening.meta")
    } else if same(host, "travel.stackexchange.com") {
        Some("travel")
    } else if same(host, "travel.meta.stackexchange.com") || same(host, "meta.travel.stackexchange.com") {
        Some("travel.meta")
    } else if same(host, "crypto.stackexchange.com") || same(host, "cryptography.stackexchange.com") {
        Some("crypto")
    } else if same(host, "crypto.meta.stackexchange.com") || same(host, "meta.cryptography.stackexchange.com") || same(host, "meta.crypto.stackexchange.com") {
        Some("crypto.meta")
    } else if same(host, "dsp.stackexchange.com") || same(host, "signals.stackexchange.com") {
        Some("dsp")
    } else {
        None
    }
}

/// Part 8 of the list of sites: the name that the API has for the site
/// at `host`.
pub open spec fn listed_7(host: Seq<char>) -> Option<Seq<char>> {
    if host == "dsp.meta.stackexchange.com"@ || host == "meta.dsp.stackexchange.com"@ {
        Some("dsp.meta"@)
    } else if host == "french.stackexchange.com"@ {
        Some("french"@)
    } else if host == "french.meta.stackexchange.com"@ || host == "meta.french.stackexchange.com"@ {
        Some("french.meta"@)
    } else if host == "christianity.stackexchange.com"@ {
        Some("christianity"@)
    } else if host == "christianity.meta.stackexchange.com"@ || host == "meta.christianity.stackexchange.com"@ {
        Some("christianity.meta"@)
    } else if host == "bitcoin.stackexchange.com"@ {
        Some("bitcoin"@)
    } else if host == "bitcoin.meta.stackexchange.com"@ || host == "meta.bitcoin.stackexchange.com"@ {
        Some("bitcoin.meta"@)
    } else if host == "linguistics.stackexchange.com"@ || host == "linguist.stackexchange.com"@ {
        Some("linguistics"@)
    } else if host == "linguistics.meta.stackexchange.com"@ || host == "meta.linguistics.stackexchange.com"@ {
        Some("linguistics.meta"@)
    } else if host == "hermeneutics.stackexchange.com"@ {
        Some("hermeneutics"@)
    } else if host == "hermeneutics.meta.stackexchange.com"@ || host == "meta.hermeneutics.stackexchange.com"@ {
        Some("hermeneutics.meta"@)
    } else if host == "history.stackexchange.com"@ {
        Some("history"@)
    } else if host == "history.meta.stackexchange.com"@ || host == "meta.history.stackexchange.com"@ {
        Some("history.meta"@)
    } else if host == "bricks.stackexchange.com"@ {
        Some("bricks"@)
    } else if host == "bricks.meta.stackexchange.com"@ || host == "meta.bricks.stackexchange.com"@ {
        Some("bricks.meta"@)
    } else if host == "spanish.stackexchange.com"@ || host == "espanol.stackexchange.com"@ {
        Some("spanish"@)
    } else {
        None
    }
}

fn find_7(host: &[char]) -> (tag: Option<&'static str>)
    ensures
        name_view(tag) == listed_7(host@),
{
    if same(host, "dsp.meta.stackexchange.com") || same(host, "meta.dsp.stackexchange.com") {
        Some("dsp.meta")
    } else if same(host, "french.stackexchange.com") {
        Some("french")
    } else if same(host, "french.meta.stackexchange.com") || same(host, "meta.french.stackexchange.com") {
        Some("french.meta")
    } else if same(host, "christianity.stackexchange.com") {
        Some("christianity")
    } else if same(host, "christianity.meta.stackexchange.com") || same(host, "meta.christianity.stackexchange.com") {
        Some("christianity.meta")
    } else if same(host, "bitcoin.stackexchange.com") {
        Some("bitcoin")
    } else if same(host, "bitcoin.meta.stackexchange.com") || same(host, "meta.bitcoin.stackexchange.com") {
        Some("bitcoin.meta")
    } else if same(host, "linguistics.stackexchange.com") || same(host, "linguist.stackexchange.com") {
        Some("linguistics")
    } else if same(host, "linguistics.meta.stackexchange.com") || same(host, "meta.linguistics.stackexchange.com") {
        Some("linguistics.meta")
    } else if same(host, "hermeneutics.stackexchange.com") {
        Some("hermeneutics")
    } else if same(host, "hermeneutics.meta.stackexchange.com") || same(host, "meta.hermeneutics.stackexchange.com") {
        Some("hermeneutics.meta")
    } else if same(host, "history.stackexchange.com") {
        Some("history")
    } else if same(host, "history.meta.stackexchange.com") || same(host, "meta.history.stackexchange.com") {
        Some("history.meta")
    } else if same(host, "bricks.stackexchange.com") {
        Some("bricks")
    } else if same(host, "bricks.meta.stackexchange.com") || same(host, "meta.bricks.stackexchange.com") {
        Some("bricks.meta")
    } else if same(host, "spanish.stackexchange.com") || same(host, "espanol.stackexchange.com") {
        Some("spanish")
    } else {
        None
    }
}

/// Part 9 of the list of sites: the name that the API has for the site
/// at `host`.
pub open spec fn listed_8(host: Seq<char>) -> Option<Seq<char>> {
    if host == "spanish.meta.stackexchange.com"@ || host == "meta.spanish.stackexchange.com"@ {
        Some("spanish.meta"@)
    } else if host == "scicomp.stackexchange.com"@ {
        Some("scicomp"@)
    } else if host == "scicomp.meta.stackexchange.com"@ || host == "meta.scicomp.stackexchange.com"@ {
        Some("scicomp.meta"@)
    } else if host == "movies.stackexchange.com"@ || host == "tv.stackexchange.com"@ {
        Some("movies"@)
    } else if host == "movies.meta.stackexchange.com"@ || host == "meta.tv.stackexchange.com"@ || host == "meta.movies.stackexchange.com"@ {
        Some("movies.meta"@)
    } else if host == "chinese.stackexchange.com"@ {
        Some("chinese"@)
    } else if host == "chinese.meta.stackexchange.com"@ || host == "meta.chinese.stackexchange.com"@ {
        Some("chinese.meta"@)
    } else if host == "biology.stackexchange.com"@ {
        Some("biology"@)
    } else if host == "biology.meta.stackexchange.com"@ || host == "meta.biology.stackexchange.com"@ {
        Some("biology.meta"@)
    } else if host == "poker.stackexchange.com"@ {
        Some("poker"@)
    } else if host == "poker.meta.stackexchange.com"@ || host == "meta.poker.stackexchange.com"@ {
        Some("poker.meta"@)
    } else if host == "mathematica.stackexchange.com"@ {
        Some("mathematica"@)
    } else if host == "mathematica.meta.stackexchange.com"@ || host == "meta.mathematica.stackexchange.com"@ {
        Some("mathematica.meta"@)
    } else if host == "psychology.stackexchange.com"@ || host == "cogsci.stackexchange.com"@ {
        Some("psychology"@)
    } else if host == "psychology.meta.stackexchange.com"@ || host == "meta.cogsci.stackexchange.com"@ || host == "cogsci.meta.stackexchange.com"@ {
        Some("psychology.meta"@)
    } else if host == "outdoors.stackexchange.com"@ {
        Some("outdoors"@)
    } else {
        None
    }
}

fn find_8(host: &[char]) -> (tag: Option<&'static str>)
    ensures
        name_view(tag) == listed_8(host@),
{
    if same(host, "spanish.meta.stackexchange.com") || same(host, "meta.spanish.stackexchange.com") {
        Some("spanish.meta")
    } else if same(host, "scicomp.stackexchange.com") {
        Some("scicomp")
    } else if same(host, "scicomp.meta.stackexchange.com") || same(host, "meta.scicomp.stackexchange.com") {
        Some("scicomp.meta")
    } else if same(host, "movies.stackexchange.com") || same(host, "tv.stackexchange.com") {
        Some("movies")
    } else if same(host, "movies.meta.stackexchange.com") || same(host, "meta.tv.stackexchange.com") || same(host, "meta.movies.stackexchange.com") {
        Some("movies.meta")
    } else if same(host, "chinese.stackexchange.com") {
        Some("chinese")
    } else if same(host, "chinese.meta.stackexchange.com") || same(host, "meta.chinese.stackexchange.com") {
        Some("chinese.meta")
    } else if same(host, "biology.stackexchange.com") {
        Some("biology")
    } else if same(host, "biology.meta.stackexchange.com") || same(host, "meta.biology.stackexchange.com") {
        Some("biology.meta")
    } else if same(host, "poker.stackexchange.com") {
        Some("poker")
    } else if same(host, "poker.meta.stackexchange.com") || same(host, "meta.poker.stackexchange.com") {
        Some("poker.meta")
    } else if same(host, "mathematica.stackexchange.com") {
        Some("mathematica")
    } else if same(host, "mathematica.meta.stackexchange.com") || same(host, "meta.mathematica.stackexchange.com") {
        Some("mathematica.meta")
    } else if same(host, "psychology.stackexchange.com") || same(host, "cogsci.stackexchange.com") {
        Some("psychology")
    } else if same(host, "psychology.meta.stackexchange.com") || same(host, "meta.cogsci.stackexchange.com") || same(host, "cogsci.meta.stackexchange.com") {
        Some("psychology.meta")
    } else if same(host, "outdoors.stackexchange.com") {
        Some("outdoors")
    } else {
        None
    }
}

/// Part 10 of the list of sites: the name that the API has for the site
/// at `host`.
pub open spec fn listed_9(host: Seq<char>) -> Option<Seq<char>> {
    if host == "outdoors.meta.stackexchange.com"@ || host == "meta.outdoors.stackexchange.com"@ {
        Some("outdoors.meta"@)
    } else if host == "martialarts.stackexchange.com"@ {
        Some("martialarts"@)
    } else if host == "martialarts.meta.stackexchange.com"@ || host == "meta.martialarts.stackexchange.com"@ {
        Some("martialarts.meta"@)
    } else if host == "sports.stackexchange.com"@ {
        Some("sports"@)
    } else if host == "sports.meta.stackexchange.com"@ || host == "meta.sports.stackexchange.com"@ {
        Some("sports.meta"@)
    } else if host == "academia.stackexchange.com"@ || host == "academics.stackexchange.com"@ {
        Some("academia"@)
    } else if host == "academia.meta.stackexchange.com"@ || host == "meta.academia.stackexchange.com"@ {
        Some("academia.meta"@)
    } else if host == "cs.stackexchange.com"@ || host == "computerscience.stackexchange.com"@ {
        Some("cs"@)
    } else if host == "cs.meta.stackexchange.com"@ || host == "meta.cs.stackexchange.com"@ {
        Some("cs.meta"@)
    } else if host == "workplace.stackexchange.com"@ {
        Some("workplace"@)
    } else if host == "workplace.meta.stackexchange.com"@ || host == "meta.workplace.stackexchange.com"@ {
        Some("workplace.meta"@)
    } else if host == "chemistry.stackexchange.com"@ {
        Some("chemistry"@)
    } else if host == "chemistry.meta.stackexchange.com"@ || host == "meta.chemistry.stackexchange.com"@ {
        Some("chemistry.meta"@)
    } else if host == "chess.stackexchange.com"@ {
        Some("chess"@)
    } else if host == "chess.meta.stackexchange.com"@ || host == "meta.chess.stackexchange.com"@ {
        Some("chess.meta"@)
    } else if host == "raspberrypi.stackexchange.com"@ {
        Some("raspberrypi"@)
    } else {
        None
    }
}

fn find_9(host: &[char]) -> (tag: Option<&'static str>)
    ensures
        name_view(tag) == listed_9(host@),
{
    if same(host, "outdoors.meta.stackexchange.com") || same(host, "meta.outdoors.stackexchange.com") {
        Some("outdoors.meta")
    } else if same(host, "martialarts.stackexchange.com") {
        Some("martialarts")
    } else if same(host, "martialarts.meta.stackexchange.com") || same(host, "meta.martialarts.stackexchange.com") {
        Some("martialarts.meta")
    } else if same(host, "sports.stackexchange.com") {
        Some("sports")
    } else if same(host, "sports.meta.stackexchange.com") || same(host, "meta.sports.stackexchange.com") {
        Some("sports.meta")
    } else if same(host, "academia.stackexchange.com") || same(host, "academics.stackexchange.com") {
        Some("academia")
    } else if same(host, "academia.meta.stackexchange.com") || same(host, "meta.academia.stackexchange.com") {
        Some("academia.meta")
    } else if same(host, "cs.stackexchange.com") || same(host, "computerscience.stackexchange.com") {
        Some("cs")
    } else if same(host, "cs.meta.stackexchange.com") || same(host, "meta.cs.stackexchange.com") {
        Some("cs.meta")
    } else if same(host, "workplace.stackexchange.com") {
        Some("workplace")
    } else if same(host, "workplace.meta.stackexchange.com") || same(host, "meta.workplace.stackexchange.com") {
        Some("workplace.meta")
    } else if same(host, "chemistry.stackexchange.com") {
        Some("chemistry")
    } else if same(host, "chemistry.meta.stackexchange.com") || same(host, "meta.chemistry.stackexchange.com") {
        Some("chemistry.meta")
    } else if same(host, "chess.stackexchange.com") {
        Some("chess")
    } else if same(host, "chess.meta.stackexchange.com") || same(host, "meta.chess.stackexchange.com") {
        Some("chess.meta")
    } else if same(host, "raspberrypi.stackexchange.com") {
        Some("raspberrypi")
    } else {
        None
    }
}

/// Part 11 of the list of sites: the name that the API has for the site
/// at `host`.
pub open spec fn listed_10(host: Seq<char>) -> Option<Seq<char>> {
    if host == "raspberrypi.meta.stackexchange.com"@ || host == "meta.raspberrypi.stackexchange.com"@ {
        Some("raspberrypi.meta"@)
    } else if host == "russian.stackexchange.com"@ {
        Some("russian"@)
    } else if host == "russian.meta.stackexchange.com"@ || host == "meta.russian.stackexchange.com"@ {
        Some("russian.meta"@)
    } else if host == "islam.stackexchange.com"@ {
        Some("islam"@)
    } else if host == "islam.meta.stackexchange.com"@ || host == "meta.islam.stackexchange.com"@ {
        Some("islam.meta"@)
    } else if host == "salesforce.stackexchange.com"@ {
        Some("salesforce"@)
    } else if host == "salesforce.meta.stackexchange.com"@ || host == "meta.salesforce.stackexchange.com"@ {
        Some("salesforce.meta"@)
    } else if host == "patents.stackexchange.com"@ || host == "askpatents.com"@ || host == "askpatents.stackexchange.com"@ {
        Some("patents"@)
    } else if host == "patents.meta.stackexchange.com"@ || host == "meta.askpatents.com"@ || host == "meta.askpatents.stackexchange.com"@ || host == "meta.patents.stackexchange.com"@ {
        Some("patents.meta"@)
    } else if host == "genealogy.stackexchange.com"@ {
        Some("genealogy"@)
    } else if host == "genealogy.meta.stackexchange.com"@ || host == "meta.genealogy.stackexchange.com"@ {
        Some("genealogy.meta"@)
    } else if host == "robotics.stackexchange.com"@ {
        Some("robotics"@)
    } else if host == "robotics.meta.stackexchange.com"@ || host == "meta.robotics.stackexchange.com"@ {
        Some("robotics.meta"@)
    } else if host == "expressionengine.stackexchange.com"@ {
        Some("expressionengine"@)
    } else if host == "expressionengine.meta.stackexchange.com"@ || host == "meta.expressionengine.stackexchange.com"@ {
        Some("expressionengine.meta"@)
    } else if host == "politics.stackexchange.com"@ {
        Some("politics"@)
    } else {
        None
    }
}

fn find_10(host: &[char]) -> (tag: Option<&'static str>)
    ensures
        name_view(tag) == listed_10(host@),
{
    if same(host, "raspberrypi.meta.stackexchange.com") || same(host, "meta.raspberrypi.stackexchange.com") {
        Some("raspberrypi.meta")
    } else if same(host, "russian.stackexchange.com") {
        Some("russian")
    } else if same(host, "russian.meta.stackexchange.com") || same(host, "meta.russian.stackexchange.com") {
        Some("russian.meta")
    } else if same(host, "islam.stackexchange.com") {
        Some("islam")
    } else if same(host, "islam.meta.stackexchange.com") || same(host, "meta.islam.stackexchange.com") {
        Some("islam.meta")
    } else if same(host, "salesforce.stackexchange.com") {
        Some("salesforce")
    } else if same(host, "salesforce.meta.stackexchange.com") || same(host, "meta.salesforce.stackexchange.com") {
        Some("salesforce.meta")
    } else if same(host, "patents.stackexchange.com") || same(host, "askpatents.com") || same(host, "askpatents.stackexchange.com") {
        Some("patents")
    } else if same(host, "patents.meta.stackexchange.com") || same(host, "meta.askpatents.com") || same(host, "meta.askpatents.stackexchange.com") || same(host, "meta.patents.stackexchange.com") {
        Some("patents.meta")
    } else if same(host, "genealogy.stackexchange.com") {
        Some("genealogy")
    } else if same(host, "genealogy.meta.stackexchange.com") || same(host, "meta.genealogy.stackexchange.com") {
        Some("genealogy.meta")
    } else if same(host, "robotics.stackexchange.com") {
        Some("robotics")
    } else if same(host, "robotics.meta.stackexchange.com") || same(host, "meta.robotics.stackexchange.com") {
        Some("robotics.meta")
    } else if same(host, "expressionengine.stackexchange.com") {
        Some("expressionengine")
    } else if same(host, "expressionengine.meta.stackexchange.com") || same(host, "meta.expressionengine.stackexchange.com") {
        Some("expressionengine.meta")
    } else if same(host, "politics.stackexchange.com") {
        Some("politics")
    } else {
        None
    }
}

/// Part 12 of the list of sites: the name that the API has for the site
/// at `host`.
pub open spec fn listed_11(host: Seq<char>) -> Option<Seq<char>> {
    if host == "politics.meta.stackexchange.com"@ || host == "meta.politics.stackexchange.com"@ {
        Some("politics.meta"@)
    } else if host == "anime.stackexchange.com"@ {
        Some("anime"@)
    } else if host == "anime.meta.stackexchange.com"@ || host == "meta.anime.stackexchange.com"@ {
        Some("anime.meta"@)
    } else if host == "magento.stackexchange.com"@ {
        Some("magento"@)
    } else if host == "magento.meta.stackexchange.com"@ || host == "meta.magento.stackexchange.com"@ {
        Some("magento.meta"@)
    } else if host == "ell.stackexchange.com"@ {
        Some("ell"@)
    } else if host == "ell.meta.stackexchange.com"@ || host == "meta.ell.stackexchange.com"@ {
        Some("ell.meta"@)
    } else if host == "sustainability.stackexchange.com"@ {
        Some("sustainability"@)
    } else if host == "sustainability.meta.stackexchange.com"@ || host == "meta.sustainability.stackexchange.com"@ {
        Some("sustainability.meta"@)
    } else if host == "tridion.stackexchange.com"@ {
        Some("tridion"@)
    } else if host == "tridion.meta.stackexchange.com"@ || host == "meta.tridion.stackexchange.com"@ {
        Some("tridion.meta"@)
    } else if host == "reverseengineering.stackexchange.com"@ {
        Some("reverseengineering"@)
    } else if host == "reverseengineering.meta.stackexchange.com"@ || host == "meta.reverseengineering.stackexchange.com"@ {
        Some("reverseengineering.meta"@)
    } else if host == "networkengineering.stackexchange.com"@ {
        Some("networkengineering"@)
    } else if host == "networkengineering.meta.stackexchange.com"@ || host == "meta.networkengineering.stackexchange.com"@ {
        Some("networkengineering.meta"@)
    } else if host == "opendata.stackexchange.com"@ {
        Some("opendata"@)
    } else {
        None
    }
}

fn find_11(host: &[char]) -> (tag: Option<&'static str>)
    ensures
        name_view(tag) == listed_11(host@),
{
    if same(host, "politics.meta.stackexchange.com") || same(host, "meta.politics.stackexchange.com") {
        Some("politics.meta")
    } else if same(host, "anime.stackexchange.com") {
        Some("anime")
    } else if same(host, "anime.meta.stackexchange.com") || same(host, "meta.anime.stackexchange.com") {
        Some("anime.meta")
    } else if same(host, "magento.stackexchange.com") {
        Some("magento")
    } else if same(host, "magento.meta.stackexchange.com") || same(host, "meta.magento.stackexchange.com") {
        Some("magento.meta")
    } else if same(host, "ell.stackexchange.com") {
        Some("ell")
    } else if same(host, "ell.meta.stackexchange.com") || same(host, "meta.ell.stackexchange.com") {
        Some("ell.meta")
    } else if same(host, "sustainability.stackexchange.com") {
        Some("sustainability")
    } else if same(host, "sustainability.meta.stackexchange.com") || same(host, "meta.sustainability.stackexchange.com") {
        Some("sustainability.meta")
    } else if same(host, "tridion.stackexchange.com") {
        Some("tridion")
    } else if same(host, "tridion.meta.stackexchange.com") || same(host, "meta.tridion.stackexchange.com") {
        Some("tridion.meta")
    } else if same(host, "reverseengineering.stackexchange.com") {
        Some("reverseengineering")
    } else if same(host, "reverseengineering.meta.stackexchange.com") || same(host, "meta.reverseengineering.stackexchange.com") {
        Some("reverseengineering.meta")
    } else if same(host, "networkengineering.stackexchange.com") {
        Some("networkengineering")
    } else if same(host, "networkengineering.meta.stackexchange.com") || same(host, "meta.networkengineering.stackexchange.com") {
        Some("networkengineering.meta")
    } else if same(host, "opendata.stackexchange.com") {
        Some("opendata")
    } else {
        None
    }
}

/// Part 13 of the list of sites: the name that the API has for the site
/// at `host`.
pub open spec fn listed_12(host: Seq<char>) -> Option<Seq<char>> {
    if host == "opendata.meta.stackexchange.com"@ || host == "meta.opendata.stackexchange.com"@ {
        Some("opendata.meta"@)
    } else if host == "freelancing.stackexchange.com"@ {
        Some("freelancing"@)
    } else if host == "freelancing.meta.stackexchange.com"@ || host == "meta.freelancing.stackexchange.com"@ {
        Some("freelancing.meta"@)
    } else if host == "blender.stackexchange.com"@ {
        Some("blender"@)
    } else if host == "blender.meta.stackexchange.com"@ || host == "meta.blender.stackexchange.com"@ {
        Some("blender.meta"@)
    } else if host == "mathoverflow.net"@ || host == "mathoverflow.stackexchange.com"@ || host == "mathoverflow.com"@ {
        Some("mathoverflow.net"@)
    } else if host == "meta.mathoverflow.net"@ {
        Some("meta.mathoverflow.net"@)
    } else if host == "space.stackexchange.com"@ || host == "thefinalfrontier.stackexchange.com"@ {
        Some("space"@)
    } else if host == "space.meta.stackexchange.com"@ || host == "meta.space.stackexchange.com"@ {
        Some("space.meta"@)
    } else if host == "sound.stackexchange.com"@ || host == "socialsounddesign.com"@ || host == "sounddesign.stackexchange.com"@ {
        Some("sound"@)
    } else if host == "sound.meta.stackexchange.com"@ || host == "meta.sound.stackexchange.com"@ {
        Some("sound.meta"@)
    } else if host == "astronomy.stackexchange.com"@ {
        Some("astronomy"@)
    } else if host == "astronomy.meta.stackexchange.com"@ || host == "meta.astronomy.stackexchange.com"@ {
        Some("astronomy.meta"@)
    } else if host == "tor.stackexchange.com"@ {
        Some("tor"@)
    } else if host == "tor.meta.stackexchange.com"@ || host == "meta.tor.stackexchange.com"@ {
        Some("tor.meta"@)
    } else if host == "pets.stackexchange.com"@ {
        Some("pets"@)
    } else {
        None
    }
}

fn find_12(host: &[char]) -> (tag: Option<&'static str>)
    ensures
        name_view(tag) == listed_12(host@),
{
    if same(host, "opendata.meta.stackexchange.com") || same(host, "meta.opendata.stackexchange.com") {
        Some("opendata.meta")
    } else if same(host, "freelancing.stackexchange.com") {
        Some("freelancing")
    } else if same(host, "freelancing.meta.stackexchange.com") || same(host, "meta.freelancing.stackexchange.com") {
        Some("freelancing.meta")
    } else if same(host, "blender.stackexchange.com") {
        Some("blender")
    } else if same(host, "blender.meta.stackexchange.com") || same(host, "meta.blender.stackexchange.com") {
        Some("blender.meta")
    } else if same(host, "mathoverflow.net") || same(host, "mathoverflow.stackexchange.com") || same(host, "mathoverflow.com") {
        Some("mathoverflow.net")
    } else if same(host, "meta.mathoverflow.net") {
        Some("meta.mathoverflow.net")
    } else if same(host, "space.stackexchange.com") || same(host, "thefinalfrontier.stackexchange.com") {
        Some("space")
    } else if same(host, "space.meta.stackexchange.com") || same(host, "meta.space.stackexchange.com") {
        Some("space.meta")
    } else if same(host, "sound.stackexchange.com") || same(host, "socialsounddesign.com") || same(host, "sounddesign.stackexchange.com") {
        Some("sound")
    } else if same(host, "sound.meta.stackexchange.com") || same(host, "meta.sound.stackexchange.com") {
        Some("sound.meta")
    } else if same(host, "astronomy.stackexchange.com") {
        Some("astronomy")
    } else if same(host, "astronomy.meta.stackexchange.com") || same(host, "meta.astronomy.stackexchange.com") {
        Some("astronomy.meta")
    } else if same(host, "tor.stackexchange.com") {
        Some("tor")
    } else if same(host, "tor.meta.stackexchange.com") || same(host, "meta.tor.stackexchange.com") {
        Some("tor.meta")
    } else if same(host, "pets.stackexchange.com") {
        Some("pets")
    } else {
        None
    }
}

/// Part 14 of the list of sites: the name that the API has for the site
/// at `host`.
pub open spec fn listed_13(host: Seq<char>) -> Option<Seq<char>> {
    if host == "pets.meta.stackexchange.com"@ || host == "meta.pets.stackexchange.com"@ {
        Some("pets.meta"@)
    } else if host == "ham.stackexchange.com"@ {
        Some("ham"@)
    } else if host == "ham.meta.stackexchange.com"@ || host == "meta.ham.stackexchange.com"@ {
        Some("ham.meta"@)
    } else if host == "italian.stackexchange.com"@ {
        Some("italian"@)
    } else if host == "italian.meta.stackexchange.com"@ || host == "meta.italian.stackexchange.com"@ {
        Some("italian.meta"@)
    } else if host == "pt.stackoverflow.com"@ || host == "br.stackoverflow.com"@ || host == "stackoverflow.com.br"@ {
        Some("pt.stackoverflow"@)
    } else if host == "pt.meta.stackoverflow.com"@ || host == "meta.br.stackoverflow.com"@ || host == "meta.pt.stackoverflow.com"@ {
        Some("pt.meta.stackoverflow"@)
    } else if host == "aviation.stackexchange.com"@ {
        Some("aviation"@)
    } else if host == "aviation.meta.stackexchange.com"@ || host == "meta.aviation.stackexchange.com"@ {
        Some("aviation.meta"@)
    } else if host == "ebooks.stackexchange.com"@ {
        Some("ebooks"@)
    } else if host == "ebooks.meta.stackexchange.com"@ || host == "meta.ebooks.stackexchange.com"@ {
        Some("ebooks.meta"@)
    } else if host == "alcohol.stackexchange.com"@ || host == "beer.stackexchange.com"@ || host == "dranks.stackexchange.com"@ {
        Some("alcohol"@)
    } else if host == "alcohol.meta.stackexchange.com"@ || host == "meta.beer.stackexchange.com"@ || host == "meta.alcohol.stackexchange.com"@ || host == "beer.meta.stackexchange.com"@ {
        Some("alcohol.meta"@)
    } else if host == "softwarerecs.stackexchange.com"@ {
        Some("softwarerecs"@)
    } else if host == "softwarerecs.meta.stackexchange.com"@ || host == "meta.softwarerecs.stackexchange.com"@ {
        Some("softwarerecs.meta"@)
    } else if host == "arduino.stackexchange.com"@ {
        Some("arduino"@)
    } else {
        None
    }
}

fn find_13(host: &[char]) -> (tag: Option<&'static str>)
    ensures
        name_view(tag) == listed_13(host@),
{
    if same(host, "pets.meta.stackexchange.com") || same(host, "meta.pets.stackexchange.com") {
        Some("pets.meta")
    } else if same(host, "ham.stackexchange.com") {
        Some("ham")
    } else if same(host, "ham.meta.stackexchange.com") || same(host, "meta.ham.stackexchange.com") {
        Some("ham.meta")
    } else if same(host, "italian.stackexchange.com") {
        Some("italian")
    } else if same(host, "italian.meta.stackexchange.com") || same(host, "meta.italian.stackexchange.com") {
        Some("italian.meta")
    } else if same(host, "pt.stackoverflow.com") || same(host, "br.stackoverflow.com") || same(host, "stackoverflow.com.br") {
        Some("pt.stackoverflow")
    } else if same(host, "pt.meta.stackoverflow.com") || same(host, "meta.br.stackoverflow.com") || same(host, "meta.pt.stackoverflow.com") {
        Some("pt.meta.stackoverflow")
    } else if same(host, "aviation.stackexchange.com") {
        Some("aviation")
    } else if same(host, "aviation.meta.stackexchange.com") || same(host, "meta.aviation.stackexchange.com") {
        Some("aviation.meta")
    } else if same(host, "ebooks.stackexchange.com") {
        Some("ebooks")
    } else if same(host, "ebooks.meta.stackexchange.com") || same(host, "meta.ebooks.stackexchange.com") {
        Some("ebooks.meta")
    } else if same(host, "alcohol.stackexchange.com") || same(host, "beer.stackexchange.com") || same(host, "dranks.stackexchange.com") {
        Some("alcohol")
    } else if same(host, "alcohol.meta.stackexchange.com") || same(host, "meta.beer.stackexchange.com") || same(host, "meta.alcohol.stackexchange.com") || same(host, "beer.meta.stackexchange.com") {
        Some("alcohol.meta")
    } else if same(host, "softwarerecs.stackexchange.com") {
        Some("softwarerecs")
    } else if same(host, "softwarerecs.meta.stackexchange.com") || same(host, "meta.softwarerecs.stackexchange.com") {
        Some("softwarerecs.meta")
    } else if same(host, "arduino.stackexchange.com") {
        Some("arduino")
    } else {
        None
    }
}

/// Part 15 of the list of sites: the name that the API has for the site
/// at `host`.
pub open spec fn listed_14(host: Seq<char>) -> Option<Seq<char>> {
    if host == "arduino.meta.stackexchange.com"@ || host == "meta.arduino.stackexchange.com"@ {
        Some("arduino.meta"@)
    } else if host == "cs50.stackexchange.com"@ {
        Some("cs50"@)
    } else if host == "cs50.meta.stackexchange.com"@ || host == "meta.cs50.stackexchange.com"@ {
        Some("cs50.meta"@)
    } else if host == "expatriates.stackexchange.com"@ || host == "expats.stackexchange.com"@ {
        Some("expatriates"@)
    } else if host == "expatriates.meta.stackexchange.com"@ || host == "meta.expatriates.stackexchange.com"@ {
        Some("expatriates.meta"@)
    } else if host == "matheducators.stackexchange.com"@ {
        Some("matheducators"@)
    } else if host == "matheducators.meta.stackexchange.com"@ || host == "meta.matheducators.stackexchange.com"@ {
        Some("matheducators.meta"@)
    } else if host == "meta.stackoverflow.com"@ {
        Some("meta.stackoverflow"@)
    } else if host == "earthscience.stackexchange.com"@ {
        Some("earthscience"@)
    } else if host == "earthscience.meta.stackexchange.com"@ || host == "meta.earthscience.stackexchange.com"@ {
        Some("earthscience.meta"@)
    } else if host == "joomla.stackexchange.com"@ {
        Some("joomla"@)
    } else if host == "joomla.meta.stackexchange.com"@ || host == "meta.joomla.stackexchange.com"@ {
        Some("joomla.meta"@)
    } else if host == "datascience.stackexchange.com"@ {
        Some("datascience"@)
    } else if host == "datascience.meta.stackexchange.com"@ || host == "meta.datascience.stackexchange.com"@ {
        Some("datascience.meta"@)
    } else if host == "puzzling.stackexchange.com"@ {
        Some("puzzling"@)
    } else if host == "puzzling.meta.stackexchange.com"@ || host == "meta.puzzling.stackexchange.com"@ {
        Some("puzzling.meta"@)
    } else {
        None
    }
}

fn find_14(host: &[char]) -> (tag: Option<&'static str>)
    ensures
        name_view(tag) == listed_14(host@),
{
    if same(host, "arduino.meta.stackexchange.com") || same(host, "meta.arduino.stackexchange.com") {
        Some("arduino.meta")
    } else if same(host, "cs50.stackexchange.com") {
        Some("cs50")
    } else if same(host, "cs50.meta.stackexchange.com") || same(host, "meta.cs50.stackexchange.com") {
        Some("cs50.meta")
    } else if same(host, "expatriates.stackexchange.com") || same(host, "expats.stackexchange.com") {
        Some("expatriates")
    } else if same(host, "expatriates.meta.stackexchange.com") || same(host, "meta.expatriates.stackexchange.com") {
        Some("expatriates.meta")
    } else if same(host, "matheducators.stackexchange.com") {
        Some("matheducators")
    } else if same(host, "matheducators.meta.stackexchange.com") || same(host, "meta.matheducators.stackexchange.com") {
        Some("matheducators.meta")
    } else if same(host, "meta.stackoverflow.com") {
        Some("meta.stackoverflow")
    } else if same(host, "earthscience.stackexchange.com") {
        Some("earthscience")
    } else if same(host, "earthscience.meta.stackexchange.com") || same(host, "meta.earthscience.stackexchange.com") {
        Some("earthscience.meta")
    } else if same(host, "joomla.stackexchange.com") {
        Some("joomla")
    } else if same(host, "joomla.meta.stackexchange.com") || same(host, "meta.joomla.stackexchange.com") {
        Some("joomla.meta")
    } else if same(host, "datascience.stackexchange.com") {
        Some("datascience")
    } else if same(host, "datascience.meta.stackexchange.com") || same(host, "meta.datascience.stackexchange.com") {
        Some("datascience.meta")
    } else if same(host, "puzzling.stackexchange.com") {
        Some("puzzling")
    } else if same(host, "puzzling.meta.stackexchange.com") || same(host, "meta.puzzling.stackexchange.com") {
        Some("puzzling.meta")
    } else {
        None
    }
}

/// Part 16 of the list of sites: the name that the API has for the site
/// at `host`.
pub open spec fn listed_15(host: Seq<char>) -> Option<Seq<char>> {
    if host == "craftcms.stackexchange.com"@ {
        Some("craftcms"@)
    } else if host == "craftcms.meta.stackexchange.com"@ || host == "meta.craftcms.stackexchange.com"@ {
        Some("craftcms.meta"@)
    } else if host == "buddhism.stackexchange.com"@ {
        Some("buddhism"@)
    } else if host == "buddhism.meta.stackexchange.com"@ || host == "meta.buddhism.stackexchange.com"@ {
        Some("buddhism.meta"@)
    } else if host == "hinduism.stackexchange.com"@ {
        Some("hinduism"@)
    } else if host == "hinduism.meta.stackexchange.com"@ || host == "meta.hinduism.stackexchange.com"@ {
        Some("hinduism.meta"@)
    } else if host == "communitybuilding.stackexchange.com"@ || host == "moderator.stackexchange.com"@ || host == "moderators.stackexchange.com"@ {
        Some("communitybuilding"@)
    } else if host == "communitybuilding.meta.stackexchange.com"@ || host == "meta.moderators.stackexchange.com"@ || host == "meta.communitybuilding.stackexchange.com"@ {
        Some("communitybuilding.meta"@)
    } else if host == "worldbuilding.stackexchange.com"@ {
        Some("worldbuilding"@)
    } else if host == "worldbuilding.meta.stackexchange.com"@ || host == "meta.worldbuilding.stackexchange.com"@ {
        Some("worldbuilding.meta"@)
    } else if host == "ja.stackoverflow.com"@ || host == "jp.stackoverflow.com"@ {
        Some("ja.stackoverflow"@)
    } else if host == "ja.meta.stackoverflow.com"@ || host == "meta.ja.stackoverflow.com"@ {
        Some("ja.meta.stackoverflow"@)
    } else if host == "emacs.stackexchange.com"@ {
        Some("emacs"@)
    } else if host == "emacs.meta.stackexchange.com"@ || host == "meta.emacs.stackexchange.com"@ {
        Some("emacs.meta"@)
    } else if host == "hsm.stackexchange.com"@ {
        Some("hsm"@)
    } else if host == "hsm.meta.stackexchange.com"@ || host == "meta.hsm.stackexchange.com"@ {
        Some("hsm.meta"@)
    } else {
        None
    }
}

fn find_15(host: &[char]) -> (tag: Option<&'static str>)
    ensures
        name_view(tag) == listed_15(host@),
{
    if same(host, "craftcms.stackexchange.com") {
        Some("craftcms")
    } else if same(host, "craftcms.meta.stackexchange.com") || same(host, "meta.craftcms.stackexchange.com") {
        Some("craftcms.meta")
    } else if same(host, "buddhism.stackexchange.com") {
        Some("buddhism")
    } else if same(host, "buddhism.meta.stackexchange.com") || same(host, "meta.buddhism.stackexchange.com") {
        Some("buddhism.meta")
    } else if same(host, "hinduism.stackexchange.com") {
        Some("hinduism")
    } else if same(host, "hinduism.meta.stackexchange.com") || same(host, "meta.hinduism.stackexchange.com") {
        Some("hinduism.meta")
    } else if same(host, "communitybuilding.stackexchange.com") || same(host, "moderator.stackexchange.com") || same(host, "moderators.stackexchange.com") {
        Some("communitybuilding")
    } else if same(host, "communitybuilding.meta.stackexchange.com") || same(host, "meta.moderators.stackexchange.com") || same(host, "meta.communitybuilding.stackexchange.com") {
        Some("communitybuilding.meta")
    } else if same(host, "worldbuilding.stackexchange.com") {
        Some("worldbuilding")
    } else if same(host, "worldbuilding.meta.stackexchange.com") || same(host, "meta.worldbuilding.stackexchange.com") {
        Some("worldbuilding.meta")
    } else if same(host, "ja.stackoverflow.com") || same(host, "jp.stackoverflow.com") {
        Some("ja.stackoverflow")
    } else if same(host, "ja.meta.stackoverflow.com") || same(host, "meta.ja.stackoverflow.com") {
        Some("ja.meta.stackoverflow")
    } else if same(host, "emacs.stackexchange.com") {
        Some("emacs")
    } else if same(host, "emacs.meta.stackexchange.com") || same(host, "meta.emacs.stackexchange.com") {
        Some("emacs.meta")
    } else if same(host, "hsm.stackexchange.com") {
        Some("hsm")
    } else if same(host, "hsm.meta.stackexchange.com") || same(host, "meta.hsm.stackexchange.com") {
        Some("hsm.meta")
    } else {
        None
    }
}

/// Part 17 of the list of sites: the name that the API has for the site
/// at `host`.
pub open spec fn listed_16(host: Seq<char>) -> Option<Seq<char>> {
    if host == "economics.stackexchange.com"@ {
        Some("economics"@)
    } else if host == "economics.meta.stackexchange.com"@ || host == "meta.economics.stackexchange.com"@ {
        Some("economics.meta"@)
    } else if host == "lifehacks.stackexchange.com"@ {
        Some("lifehacks"@)
    } else if host == "lifehacks.meta.stackexchange.com"@ || host == "meta.lifehacks.stackexchange.com"@ {
        Some("lifehacks.meta"@)
    } else if host == "engineering.stackexchange.com"@ {
        Some("engineering"@)
    } else if host == "engineering.meta.stackexchange.com"@ || host == "meta.engineering.stackexchange.com"@ {
        Some("engineering.meta"@)
    } else if host == "coffee.stackexchange.com"@ {
        Some("coffee"@)
    } else if host == "coffee.meta.stackexchange.com"@ || host == "meta.coffee.stackexchange.com"@ {
        Some("coffee.meta"@)
    } else if host == "vi.stackexchange.com"@ || host == "vim.stackexchange.com"@ {
        Some("vi"@)
    } else if host == "vi.meta.stackexchange.com"@ || host == "meta.vi.stackexchange.com"@ {
        Some("vi.meta"@)
    } else if host == "musicfans.stackexchange.com"@ {
        Some("musicfans"@)
    } else if host == "musicfans.meta.stackexchange.com"@ || host == "meta.musicfans.stackexchange.com"@ {
        Some("musicfans.meta"@)
    } else if host == "woodworking.stackexchange.com"@ {
        Some("woodworking"@)
    } else if host == "woodworking.meta.stackexchange.com"@ || host == "meta.woodworking.stackexchange.com"@ {
        Some("woodworking.meta"@)
    } else if host == "civicrm.stackexchange.com"@ {
        Some("civicrm"@)
    } else if host == "civicrm.meta.stackexchange.com"@ || host == "meta.civicrm.stackexchange.com"@ {
        Some("civicrm.meta"@)
    } else {
        None
    }
}

fn find_16(host: &[char]) -> (tag: Option<&'static str>)
    ensures
        name_view(tag) == listed_16(host@),
{
    if same(host, "economics.stackexchange.com") {
        Some("economics")
    } else if same(host, "economics.meta.stackexchange.com") || same(host, "meta.economics.stackexchange.com") {
        Some("economics.meta")
    } else if same(host, "lifehacks.stackexchange.com") {
        Some("lifehacks")
    } else if same(host, "lifehacks.meta.stackexchange.com") || same(host, "meta.lifehacks.stackexchange.com") {
        Some("lifehacks.meta")
    } else if same(host, "engineering.stackexchange.com") {
        Some("engineering")
    } else if same(host, "engineering.meta.stackexchange.com") || same(host, "meta.engineering.stackexchange.com") {
        Some("engineering.meta")
    } else if same(host, "coffee.stackexchange.com") {
        Some("coffee")
    } else if same(host, "coffee.meta.stackexchange.com") || same(host, "meta.coffee.stackexchange.com") {
        Some("coffee.meta")
    } else if same(host, "vi.stackexchange.com") || same(host, "vim.stackexchange.com") {
        Some("vi")
    } else if same(host, "vi.meta.stackexchange.com") || same(host, "meta.vi.stackexchange.com") {
        Some("vi.meta")
    } else if same(host, "musicfans.stackexchange.com") {
        Some("musicfans")
    } else if same(host, "musicfans.meta.stackexchange.com") || same(host, "meta.musicfans.stackexchange.com") {
        Some("musicfans.meta")
    } else if same(host, "woodworking.stackexchange.com") {
        Some("woodworking")
    } else if same(host, "woodworking.meta.stackexchange.com") || same(host, "meta.woodworking.stackexchange.com") {
        Some("woodworking.meta")
    } else if same(host, "civicrm.stackexchange.com") {
        Some("civicrm")
    } else if same(host, "civicrm.meta.stackexchange.com") || same(host, "meta.civicrm.stackexchange.com") {
        Some("civicrm.meta")
    } else {
        None
    }
}

/// Part 18 of the list of sites: the name that the API has for the site
/// at `host`.
pub open spec fn listed_17(host: Seq<char>) -> Option<Seq<char>> {
    if host == "medicalsciences.stackexchange.com"@ || host == "health.stackexchange.com"@ {
        Some("medicalsciences"@)
    } else if host == "medicalsciences.meta.stackexchange.com"@ || host == "meta.health.stackexchange.com"@ || host == "health.meta.stackexchange.com"@ {
        Some("medicalsciences.meta"@)
    } else if host == "ru.stackoverflow.com"@ || host == "hashcode.ru"@ || host == "stackoverflow.ru"@ {
        Some("ru.stackoverflow"@)
    } else if host == "ru.meta.stackoverflow.com"@ || host == "meta.hashcode.ru"@ || host == "meta.ru.stackoverflow.com"@ {
        Some("ru.meta.stackoverflow"@)
    } else if host == "rus.stackexchange.com"@ || host == "russ.hashcode.ru"@ || host == "russ.stackexchange.com"@ {
        Some("rus"@)
    } else if host == "rus.meta.stackexchange.com"@ || host == "meta.rus.stackexchange.com"@ {
        Some("rus.meta"@)
    } else if host == "mythology.stackexchange.com"@ {
        Some("mythology"@)
    } else if host == "mythology.meta.stackexchange.com"@ || host == "meta.mythology.stackexchange.com"@ {
        Some("mythology.meta"@)
    } else if host == "law.stackexchange.com"@ {
        Some("law"@)
    } else if host == "law.meta.stackexchange.com"@ || host == "meta.law.stackexchange.com"@ {
        Some("law.meta"@)
    } else if host == "opensource.stackexchange.com"@ {
        Some("opensource"@)
    } else if host == "opensource.meta.stackexchange.com"@ || host == "meta.opensource.stackexchange.com"@ {
        Some("opensource.meta"@)
    } else if host == "elementaryos.stackexchange.com"@ {
        Some("elementaryos"@)
    } else if host == "elementaryos.meta.stackexchange.com"@ || host == "meta.elementaryos.stackexchange.com"@ {
        Some("elementaryos.meta"@)
    } else if host == "portuguese.stackexchange.com"@ {
        Some("portuguese"@)
    } else if host == "portuguese.meta.stackexchange.com"@ || host == "meta.portuguese.stackexchange.com"@ {
        Some("portuguese.meta"@)
    } else {
        None
    }
}

fn find_17(host: &[char]) -> (tag: Option<&'static str>)
    ensures
        name_view(tag) == listed_17(host@),
{
    if same(host, "medicalsciences.stackexchange.com") || same(host, "health.stackexchange.com") {
        Some("medicalsciences")
    } else if same(host, "medicalsciences.meta.stackexchange.com") || same(host, "meta.health.stackexchange.com") || same(host, "health.meta.stackexchange.com") {
        Some("medicalsciences.meta")
    } else if same(host, "ru.stackoverflow.com") || same(host, "hashcode.ru") || same(host, "stackoverflow.ru") {
        Some("ru.stackoverflow")
    } else if same(host, "ru.meta.stackoverflow.com") || same(host, "meta.hashcode.ru") || same(host, "meta.ru.stackoverflow.com") {
        Some("ru.meta.stackoverflow")
    } else if same(host, "rus.stackexchange.com") || same(host, "russ.hashcode.ru") || same(host, "russ.stackexchange.com") {
        Some("rus")
    } else if same(host, "rus.meta.stackexchange.com") || same(host, "meta.rus.stackexchange.com") {
        Some("rus.meta")
    } else if same(host, "mythology.stackexchange.com") {
        Some("mythology")
    } else if same(host, "mythology.meta.stackexchange.com") || same(host, "meta.mythology.stackexchange.com") {
        Some("mythology.meta")
    } else if same(host, "law.stackexchange.com") {
        Some("law")
    } else if same(host, "law.meta.stackexchange.com") || same(host, "meta.law.stackexchange.com") {
        Some("law.meta")
    } else if same(host, "opensource.stackexchange.com") {
        Some("opensource")
    } else if same(host, "opensource.meta.stackexchange.com") || same(host, "meta.opensource.stackexchange.com") {
        Some("opensource.meta")
    } else if same(host, "elementaryos.stackexchange.com") {
        Some("elementaryos")
    } else if same(host, "elementaryos.meta.stackexchange.com") || same(host, "meta.elementaryos.stackexchange.com") {
        Some("elementaryos.meta")
    } else if same(host, "portuguese.stackexchange.com") {
        Some("portuguese")
    } else if same(host, "portuguese.meta.stackexchange.com") || same(host, "meta.portuguese.stackexchange.com") {
        Some("portuguese.meta")
    } else {
        None
    }
}

/// Part 19 of the list of sites: the name that the API has for the site
/// at `host`.
pub open spec fn listed_18(host: Seq<char>) -> Option<Seq<char>> {
    if host == "computergraphics.stackexchange.com"@ {
        Some("computergraphics"@)
    } else if host == "computergraphics.meta.stackexchange.com"@ || host == "meta.computergraphics.stackexchange.com"@ {
        Some("computergraphics.meta"@)
    } else if host == "hardwarerecs.stackexchange.com"@ {
        Some("hardwarerecs"@)
    } else if host == "hardwarerecs.meta.stackexchange.com"@ || host == "meta.hardwarerecs.stackexchange.com"@ {
        Some("hardwarerecs.meta"@)
    } else if host == "es.stackoverflow.com"@ {
        Some("es.stackoverflow"@)
    } else if host == "es.meta.stackoverflow.com"@ || host == "meta.es.stackoverflow.com"@ {
        Some("es.meta.stackoverflow"@)
    } else if host == "3dprinting.stackexchange.com"@ || host == "threedprinting.stackexchange.com"@ {
        Some("3dprinting"@)
    } else if host == "3dprinting.meta.stackexchange.com"@ || host == "meta.3dprinting.stackexchange.com"@ {
        Some("3dprinting.meta"@)
    } else if host == "ethereum.stackexchange.com"@ {
        Some("ethereum"@)
    } else if host == "ethereum.meta.stackexchange.com"@ || host == "meta.ethereum.stackexchange.com"@ {
        Some("ethereum.meta"@)
    } else if host == "latin.stackexchange.com"@ {
        Some("latin"@)
    } else if host == "latin.meta.stackexchange.com"@ || host == "meta.latin.stackexchange.com"@ {
        Some("latin.meta"@)
    } else if host == "languagelearning.stackexchange.com"@ {
        Some("languagelearning"@)
    } else if host == "languagelearning.meta.stackexchange.com"@ || host == "meta.languagelearning.stackexchange.com"@ {
        Some("languagelearning.meta"@)
    } else if host == "retrocomputing.stackexchange.com"@ {
        Some("retrocomputing"@)
    } else if host == "retrocomputing.meta.stackexchange.com"@ || host == "meta.retrocomputing.stackexchange.com"@ {
        Some("retrocomputing.meta"@)
    } else {
        None
    }
}

fn find_18(host: &[char]) -> (tag: Option<&'static str>)
    ensures
        name_view(tag) == listed_18(host@),
{
    if same(host, "computergraphics.stackexchange.com") {
        Some("computergraphics")
    } else if same(host, "computergraphics.meta.stackexchange.com") || same(host, "meta.computergraphics.stackexchange.com") {
        Some("computergraphics.meta")
    } else if same(host, "hardwarerecs.stackexchange.com") {
        Some("hardwarerecs")
    } else if same(host, "hardwarerecs.meta.stackexchange.com") || same(host, "meta.hardwarerecs.stackexchange.com") {
        Some("hardwarerecs.meta")
    } else if same(host, "es.stackoverflow.com") {
        Some("es.stackoverflow")
    } else if same(host, "es.meta.stackoverflow.com") || same(host, "meta.es.stackoverflow.com") {
        Some("es.meta.stackoverflow")
    } else if same(host, "3dprinting.stackexchange.com") || same(host, "threedprinting.stackexchange.com") {
        Some("3dprinting")
    } else if same(host, "3dprinting.meta.stackexchange.com") || same(host, "meta.3dprinting.stackexchange.com") {
        Some("3dprinting.meta")
    } else if same(host, "ethereum.stackexchange.com") {
        Some("ethereum")
    } else if same(host, "ethereum.meta.stackexchange.com") || same(host, "meta.ethereum.stackexchange.com") {
        Some("ethereum.meta")
    } else if same(host, "latin.stackexchange.com") {
        Some("latin")
    } else if same(host, "latin.meta.stackexchange.com") || same(host, "meta.latin.stackexchange.com") {
        Some("latin.meta")
    } else if same(host, "languagelearning.stackexchange.com") {
        Some("languagelearning")
    } else if same(host, "languagelearning.meta.stackexchange.com") || same(host, "meta.languagelearning.stackexchange.com") {
        Some("languagelearning.meta")
    } else if same(host, "retrocomputing.stackexchange.com") {
        Some("retrocomputing")
    } else if same(host, "retrocomputing.meta.stackexchange.com") || same(host, "meta.retrocomputing.stackexchange.com") {
        Some("retrocomputing.meta")
    } else {
        None
    }
}

/// Part 20 of the list of sites: the name that the API has for the site
/// at `host`.
pub open spec fn listed_19(host: Seq<char>) -> Option<Seq<char>> {
    if host == "crafts.stackexchange.com"@ {
        Some("crafts"@)
    } else if host == "crafts.meta.stackexchange.com"@ || host == "meta.crafts.stackexchange.com"@ {
        Some("crafts.meta"@)
    } else if host == "korean.stackexchange.com"@ {
        Some("korean"@)
    } else if host == "korean.meta.stackexchange.com"@ || host == "meta.korean.stackexchange.com"@ {
        Some("korean.meta"@)
    } else if host == "monero.stackexchange.com"@ {
        Some("monero"@)
    } else if host == "monero.meta.stackexchange.com"@ || host == "meta.monero.stackexchange.com"@ {
        Some("monero.meta"@)
    } else if host == "ai.stackexchange.com"@ {
        Some("ai"@)
    } else if host == "ai.meta.stackexchange.com"@ || host == "meta.ai.stackexchange.com"@ {
        Some("ai.meta"@)
    } else if host == "esperanto.stackexchange.com"@ {
        Some("esperanto"@)
    } else if host == "esperanto.meta.stackexchange.com"@ || host == "meta.esperanto.stackexchange.com"@ {
        Some("esperanto.meta"@)
    } else if host == "sitecore.stackexchange.com"@ {
        Some("sitecore"@)
    } else if host == "sitecore.meta.stackexchange.com"@ || host == "meta.sitecore.stackexchange.com"@ {
        Some("sitecore.meta"@)
    } else if host == "iot.stackexchange.com"@ {
        Some("iot"@)
    } else if host == "iot.meta.stackexchange.com"@ || host == "meta.iot.stackexchange.com"@ {
        Some("iot.meta"@)
    } else if host == "literature.stackexchange.com"@ {
        Some("literature"@)
    } else if host == "literature.meta.stackexchange.com"@ || host == "meta.literature.stackexchange.com"@ {
        Some("literature.meta"@)
    } else {
        None
    }
}

fn find_19(host: &[char]) -> (tag: Option<&'static str>)
    ensures
        name_view(tag) == listed_19(host@),
{
    if same(host, "crafts.stackexchange.com") {
        Some("crafts")
    } else if same(host, "crafts.meta.stackexchange.com") || same(host, "meta.crafts.stackexchange.com") {
        Some("crafts.meta")
    } else if same(host, "korean.stackexchange.com") {
        Some("korean")
    } else if same(host, "korean.meta.stackexchange.com") || same(host, "meta.korean.stackexchange.com") {
        Some("korean.meta")
    } else if same(host, "monero.stackexchange.com") {
        Some("monero")
    } else if same(host, "monero.meta.stackexchange.com") || same(host, "meta.monero.stackexchange.com") {
        Some("monero.meta")
    } else if same(host, "ai.stackexchange.com") {
        Some("ai")
    } else if same(host, "ai.meta.stackexchange.com") || same(host, "meta.ai.stackexchange.com") {
        Some("ai.meta")
    } else if same(host, "esperanto.stackexchange.com") {
        Some("esperanto")
    } else if same(host, "esperanto.meta.stackexchange.com") || same(host, "meta.esperanto.stackexchange.com") {
        Some("esperanto.meta")
    } else if same(host, "sitecore.stackexchange.com") {
        Some("sitecore")
    } else if same(host, "sitecore.meta.stackexchange.com") || same(host, "meta.sitecore.stackexchange.com") {
        Some("sitecore.meta")
    } else if same(host, "iot.stackexchange.com") {
        Some("iot")
    } else if same(host, "iot.meta.stackexchange.com") || same(host, "meta.iot.stackexchange.com") {
        Some("iot.meta")
    } else if same(host, "literature.stackexchange.com") {
        Some("literature")
    } else if same(host, "literature.meta.stackexchange.com") || same(host, "meta.literature.stackexchange.com") {
        Some("literature.meta")
    } else {
        None
    }
}

/// Part 21 of the list of sites: the name that the API has for the site
/// at `host`.
pub open spec fn listed_20(host: Seq<char>) -> Option<Seq<char>> {
    if host == "vegetarianism.stackexchange.com"@ || host == "vegetarian.stackexchange.com"@ || host == "veg.stackexchange.com"@ {
        Some("vegetarianism"@)
    } else if host == "vegetarianism.meta.stackexchange.com"@ || host == "meta.vegetarian.stackexchange.com"@ || host == "meta.vegetarianism.stackexchange.com"@ || host == "veg.meta.stackexchange.com"@ {
        Some("vegetarianism.meta"@)
    } else if host == "ukrainian.stackexchange.com"@ {
        Some("ukrainian"@)
    } else if host == "ukrainian.meta.stackexchange.com"@ || host == "meta.ukrainian.stackexchange.com"@ {
        Some("ukrainian.meta"@)
    } else if host == "devops.stackexchange.com"@ {
        Some("devops"@)
    } else if host == "devops.meta.stackexchange.com"@ || host == "meta.devops.stackexchange.com"@ {
        Some("devops.meta"@)
    } else if host == "bioinformatics.stackexchange.com"@ {
        Some("bioinformatics"@)
    } else if host == "bioinformatics.meta.stackexchange.com"@ {
        Some("bioinformatics.meta"@)
    } else if host == "cseducators.stackexchange.com"@ {
        Some("cseducators"@)
    } else if host == "cseducators.meta.stackexchange.com"@ {
        Some("cseducators.meta"@)
    } else if host == "interpersonal.stackexchange.com"@ || host == "interpersonalskills.stackexchange.com"@ || host == "ips.stackexchange.com"@ {
        Some("interpersonal"@)
    } else if host == "interpersonal.meta.stackexchange.com"@ || host == "interpersonalskills.meta.stackexchange.com"@ || host == "ips.meta.stackexchange.com"@ {
        Some("interpersonal.meta"@)
    } else if host == "iota.stackexchange.com"@ {
        Some("iota"@)
    } else if host == "iota.meta.stackexchange.com"@ {
        Some("iota.meta"@)
    } else if host == "stellar.stackexchange.com"@ {
        Some("stellar"@)
    } else if host == "stellar.meta.stackexchange.com"@ {
        Some("stellar.meta"@)
    } else {
        None
    }
}

fn find_20(host: &[char]) -> (tag: Option<&'static str>)
    ensures
        name_view(tag) == listed_20(host@),
{
    if same(host, "vegetarianism.stackexchange.com") || same(host, "vegetarian.stackexchange.com") || same(host, "veg.stackexchange.com") {
        Some("vegetarianism")
    } else if same(host, "vegetarianism.meta.stackexchange.com") || same(host, "meta.vegetarian.stackexchange.com") || same(host, "meta.vegetarianism.stackexchange.com") || same(host, "veg.meta.stackexchange.com") {
        Some("vegetarianism.meta")
    } else if same(host, "ukrainian.stackexchange.com") {
        Some("ukrainian")
    } else if same(host, "ukrainian.meta.stackexchange.com") || same(host, "meta.ukrainian.stackexchange.com") {
        Some("ukrainian.meta")
    } else if same(host, "devops.stackexchange.com") {
        Some("devops")
    } else if same(host, "devops.meta.stackexchange.com") || same(host, "meta.devops.stackexchange.com") {
        Some("devops.meta")
    } else if same(host, "bioinformatics.stackexchange.com") {
        Some("bioinformatics")
    } else if same(host, "bioinformatics.meta.stackexchange.com") {
        Some("bioinformatics.meta")
    } else if same(host, "cseducators.stackexchange.com") {
        Some("cseducators")
    } else if same(host, "cseducators.meta.stackexchange.com") {
        Some("cseducators.meta")
    } else if same(host, "interpersonal.stackexchange.com") || same(host, "interpersonalskills.stackexchange.com") || same(host, "ips.stackexchange.com") {
        Some("interpersonal")
    } else if same(host, "interpersonal.meta.stackexchange.com") || same(host, "interpersonalskills.meta.stackexchange.com") || same(host, "ips.meta.stackexchange.com") {
        Some("interpersonal.meta")
    } else if same(host, "iota.stackexchange.com") {
        Some("iota")
    } else if same(host, "iota.meta.stackexchange.com") {
        Some("iota.meta")
    } else if same(host, "stellar.stackexchange.com") {
        Some("stellar")
    } else if same(host, "stellar.meta.stackexchange.com") {
        Some("stellar.meta")
    } else {
        None
    }
}

/// Part 22 of the list of sites: the name that the API has for the site
/// at `host`.
pub open spec fn listed_21(host: Seq<char>) -> Option<Seq<char>> {
    if host == "conlang.stackexchange.com"@ {
        Some("conlang"@)
    } else if host == "conlang.meta.stackexchange.com"@ {
        Some("conlang.meta"@)
    } else if host == "quantumcomputing.stackexchange.com"@ {
        Some("quantumcomputing"@)
    } else if host == "quantumcomputing.meta.stackexchange.com"@ {
        Some("quantumcomputing.meta"@)
    } else if host == "eosio.stackexchange.com"@ {
        Some("eosio"@)
    } else if host == "eosio.meta.stackexchange.com"@ {
        Some("eosio.meta"@)
    } else if host == "tezos.stackexchange.com"@ {
        Some("tezos"@)
    } else if host == "tezos.meta.stackexchange.com"@ {
        Some("tezos.meta"@)
    } else if host == "or.stackexchange.com"@ {
        Some("or"@)
    } else if host == "or.meta.stackexchange.com"@ {
        Some("or.meta"@)
    } else if host == "drones.stackexchange.com"@ {
        Some("drones"@)
    } else if host == "drones.meta.stackexchange.com"@ {
        Some("drones.meta"@)
    } else if host == "mattermodeling.stackexchange.com"@ || host == "materials.stackexchange.com"@ {
        Some("mattermodeling"@)
    } else if host == "mattermodeling.meta.stackexchange.com"@ || host == "materials.meta.stackexchange.com"@ {
        Some("mattermodeling.meta"@)
    } else if host == "cardano.stackexchange.com"@ {
        Some("cardano"@)
    } else if host == "cardano.meta.stackexchange.com"@ {
        Some("cardano.meta"@)
    } else {
        None
    }
}

fn find_21(host: &[char]) -> (tag: Option<&'static str>)
    ensures
        name_view(tag) == listed_21(host@),
{
    if same(host, "conlang.stackexchange.com") {
        Some("conlang")
    } else if same(host, "conlang.meta.stackexchange.com") {
        Some("conlang.meta")
    } else if same(host, "quantumcomputing.stackexchange.com") {
        Some("quantumcomputing")
    } else if same(host, "quantumcomputing.meta.stackexchange.com") {
        Some("quantumcomputing.meta")
    } else if same(host, "eosio.stackexchange.com") {
        Some("eosio")
    } else if same(host, "eosio.meta.stackexchange.com") {
        Some("eosio.meta")
    } else if same(host, "tezos.stackexchange.com") {
        Some("tezos")
    } else if same(host, "tezos.meta.stackexchange.com") {
        Some("tezos.meta")
    } else if same(host, "or.stackexchange.com") {
        Some("or")
    } else if same(host, "or.meta.stackexchange.com") {
        Some("or.meta")
    } else if same(host, "drones.stackexchange.com") {
        Some("drones")
    } else if same(host, "drones.meta.stackexchange.com") {
        Some("drones.meta")
    } else if same(host, "mattermodeling.stackexchange.com") || same(host, "materials.stackexchange.com") {
        Some("mattermodeling")
    } else if same(host, "mattermodeling.meta.stackexchange.com") || same(host, "materials.meta.stackexchange.com") {
        Some("mattermodeling.meta")
    } else if same(host, "cardano.stackexchange.com") {
        Some("cardano")
    } else if same(host, "cardano.meta.stackexchange.com") {
        Some("cardano.meta")
    } else {
        None
    }
}

/// Part 23 of the list of sites: the name that the API has for the site
/// at `host`.
pub open spec fn listed_22(host: Seq<char>) -> Option<Seq<char>> {
    if host == "proofassistants.stackexchange.com"@ {
        Some("proofassistants"@)
    } else if host == "proofassistants.meta.stackexchange.com"@ {
        Some("proofassistants.meta"@)
    } else if host == "substrate.stackexchange.com"@ || host == "polkadot.stackexchange.com"@ {
        Some("substrate"@)
    } else if host == "substrate.meta.stackexchange.com"@ || host == "polkadot.meta.stackexchange.com"@ {
        Some("substrate.meta"@)
    } else if host == "bioacoustics.stackexchange.com"@ {
        Some("bioacoustics"@)
    } else if host == "bioacoustics.meta.stackexchange.com"@ {
        Some("bioacoustics.meta"@)
    } else if host == "solana.stackexchange.com"@ {
        Some("solana"@)
    } else if host == "solana.meta.stackexchange.com"@ {
        Some("solana.meta"@)
    } else if host == "langdev.stackexchange.com"@ || host == "languagedesign.stackexchange.com"@ {
        Some("langdev"@)
    } else if host == "langdev.meta.stackexchange.com"@ || host == "languagedesign.meta.stackexchange.com"@ {
        Some("langdev.meta"@)
    } else if host == "genai.stackexchange.com"@ {
        Some("genai"@)
    } else if host == "genai.meta.stackexchange.com"@ {
        Some("genai.meta"@)
    } else {
        None
    }
}

fn find_22(host: &[char]) -> (tag: Option<&'static str>)
    ensures
        name_view(tag) == listed_22(host@),
{
    if same(host, "proofassistants.stackexchange.com") {
        Some("proofassistants")
    } else if same(host, "proofassistants.meta.stackexchange.com") {
        Some("proofassistants.meta")
    } else if same(host, "substrate.stackexchange.com") || same(host, "polkadot.stackexchange.com") {
        Some("substrate")
    } else if same(host, "substrate.meta.stackexchange.com") || same(host, "polkadot.meta.stackexchange.com") {
        Some("substrate.meta")
    } else if same(host, "bioacoustics.stackexchange.com") {
        Some("bioacoustics")
    } else if same(host, "bioacoustics.meta.stackexchange.com") {
        Some("bioacoustics.meta")
    } else if same(host, "solana.stackexchange.com") {
        Some("solana")
    } else if same(host, "solana.meta.stackexchange.com") {
        Some("solana.meta")
    } else if same(host, "langdev.stackexchange.com") || same(host, "languagedesign.stackexchange.com") {
        Some("langdev")
    } else if same(host, "langdev.meta.stackexchange.com") || same(host, "languagedesign.meta.stackexchange.com") {
        Some("langdev.meta")
    } else if same(host, "genai.stackexchange.com") {
        Some("genai")
    } else if same(host, "genai.meta.stackexchange.com") {
        Some("genai.meta")
    } else {
        None
    }
}

/// The name that the API has for the site at `host`, for the sites of the
/// network and their other names.
pub open spec fn site_tag_of(host: Seq<char>) -> Option<Seq<char>> {
    if listed_0(host) is Some {
        listed_0(host)
    } else if listed_1(host) is Some {
        listed_1(host)
    } else if listed_2(host) is Some {
        listed_2(host)
    } else if listed_3(host) is Some {
        listed_3(host)
    } else if listed_4(host) is Some {
        listed_4(host)
    } else if listed_5(host) is Some {
        listed_5(host)
    } else if listed_6(host) is Some {
        listed_6(host)
    } else if listed_7(host) is Some {
        listed_7(host)
    } else if listed_8(host) is Some {
        listed_8(host)
    } else if listed_9(host) is Some {
        listed_9(host)
    } else if listed_10(host) is Some {
        listed_10(host)
    } else if listed_11(host) is Some {
        listed_11(host)
    } else if listed_12(host) is Some {
        listed_12(host)
    } else if listed_13(host) is Some {
        listed_13(host)
    } else if listed_14(host) is Some {
        listed_14(host)
    } else if listed_15(host) is Some {
        listed_15(host)
    } else if listed_16(host) is Some {
        listed_16(host)
    } else if listed_17(host) is Some {
        listed_17(host)
    } else if listed_18(host) is Some {
        listed_18(host)
    } else if listed_19(host) is Some {
        listed_19(host)
    } else if listed_20(host) is Some {
        listed_20(host)
    } else if listed_21(host) is Some {
        listed_21(host)
    } else if listed_22(host) is Some {
        listed_22(host)
    } else {
        None
    }
}

/// Finds the name that the API has for the site at `hostname`.
pub fn site_tag(hostname: &str) -> (tag: Option<&'static str>)
    ensures
        name_view(tag) == site_tag_of(hostname@),
{
    let chars = to_chars(hostname);
    let host = chars.as_slice();
    let found = find_0(host);
    if found.is_some() {
        return found;
    }
    let found = find_1(host);
    if found.is_some() {
        return found;
    }
    let found = find_2(host);
    if found.is_some() {
        return found;
    }
    let found = find_3(host);
    if found.is_some() {
        return found;
    }
    let found = find_4(host);
    if found.is_some() {
        return found;
    }
    let found = find_5(host);
    if found.is_some() {
        return found;
    }
    let found = find_6(host);
    if found.is_some() {
        return found;
    }
    let found = find_7(host);
    if found.is_some() {
        return found;
    }
    let found = find_8(host);
    if found.is_some() {
        return found;
    }
    let found = find_9(host);
    if found.is_some() {
        return found;
    }
    let found = find_10(host);
    if found.is_some() {
        return found;
    }
    let found = find_11(host);
    if found.is_some() {
        return found;
    }
    let found = find_12(host);
    if found.is_some() {
        return found;
    }
    let found = find_13(host);
    if found.is_some() {
        return found;
    }
    let found = find_14(host);
    if found.is_some() {
        return found;
    }
    let found = find_15(host);
    if found.is_some() {
        return found;
    }
    let found = find_16(host);
    if found.is_some() {
        return found;
    }
    let found = find_17(host);
    if found.is_some() {
        return found;
    }
    let found = find_18(host);
    if found.is_some() {
        return found;
    }
    let found = find_19(host);
    if found.is_some() {
        return found;
    }
    let found = find_20(host);
    if found.is_some() {
        return found;
    }
    let found = find_21(host);
    if found.is_some() {
        return found;
    }
    let found = find_22(host);
    if found.is_some() {
        return found;
    }
    None
}

/// What an address on a site of the network names.
#[derive(Debug, PartialEq, Eq)]
pub enum Path {
    /// An answer, by its number.
    Answer(String),
    /// A question, by its number, and the number of the answer that is
    /// asked for, if any.
    Question(String, Option<u64>),
}

/// A [`Path`] as a mathematical value.
pub enum PathView {
    Answer(Seq<char>),
    Question(Seq<char>, Option<u64>),
}

impl View for Path {
    type V = PathView;

    open spec fn view(&self) -> PathView {
        match self {
            Path::Answer(id) => PathView::Answer(id@),
            Path::Question(id, answer) => PathView::Question(id@, *answer),
        }
    }
}

/// A path that may be missing, as a mathematical value.
pub open spec fn path_view(path: Option<Path>) -> Option<PathView> {
    match path {
        Some(path) => Some(path@),
        None => None,
    }
}

/// What the path of an address names: an answer behind `a`, or a question
/// behind `q` or `questions`, with the answer that its fourth segment
/// numbers.
pub open spec fn parsed(path: Seq<char>) -> Option<PathView> {
    let s = segments(path);
    if s.len() < 2 {
        None
    } else if s[0] == "a"@ {
        Some(PathView::Answer(s[1]))
    } else if s[0] == "q"@ || s[0] == "questions"@ {
        Some(
            PathView::Question(
                s[1],
                if s.len() > 3 {
                    number(s[3])
                } else {
                    None
                },
            ),
        )
    } else {
        None
    }
}

/// Tells what the path of an address names.
pub fn parse_path(path: &str) -> (out: Option<Path>)
    ensures
        path_view(out) == parsed(path@),
{
    let s = path_segments(path);
    proof {
        assert forall|i: int| 0 <= i < s@.len() implies segments(path@)[i] == (#[trigger] s@[i])@ by {
            assert(views(s@)[i] == s@[i]@);
        }
    }
    if s.len() < 2 {
        None
    } else if same(s[0].as_slice(), "a") {
        Some(Path::Answer(to_string(s[1].as_slice())))
    } else if same(s[0].as_slice(), "q") || same(s[0].as_slice(), "questions") {
        let answer = if s.len() > 3 {
            parse_number(to_string(s[3].as_slice()).as_str())
        } else {
            None
        };
        Some(Path::Question(to_string(s[1].as_slice()), answer))
    } else {
        None
    }
}

/// An answer as the API gives it.
#[derive(Debug)]
pub struct Answer {
    /// The number of the answer.
    pub answer_id: u64,
    /// The text of the answer, as HTML.
    pub body: String,
    /// The name that the author shows, as HTML.
    pub display_name: String,
}

impl Answer {
    /// Brings the answer into shape: the name of its author and its text
    /// are rendered.
    pub fn render(self, url: &str) -> (post: Post)
        ensures
            post.author@ == rendered(
                fragment(self.display_name@),
                url@,
                Some(LINE_LENGTH as nat),
            ),
            post.body@ == rendered(fragment(self.body@), url@, Some(LINE_LENGTH as nat)),
            post.urls@.len() == 0,
    {
        Post {
            author: render(self.display_name.as_str(), url),
            body: render(self.body.as_str(), url),
            urls: Vec::new(),
        }
    }
}

/// Where the answer with the number `wanted` stands among the first `k`
/// answers: the place of the first such, or nothing.
pub open spec fn answer_place(answers: Seq<Answer>, wanted: u64, k: nat) -> Option<int>
    decreases k,
{
    if k == 0 || k > answers.len() {
        None
    } else {
        match answer_place(answers, wanted, (k - 1) as nat) {
            Some(place) => Some(place),
            None => if answers[k - 1].answer_id == wanted {
                Some(k - 1)
            } else {
                None
            },
        }
    }
}

/// Finds the answer with the number `wanted`.
pub fn find_answer(answers: &Vec<Answer>, wanted: u64) -> (place: Option<usize>)
    ensures
        match place {
            Some(place) => answer_place(answers@, wanted, answers@.len()) == Some(place as int),
            None => answer_place(answers@, wanted, answers@.len()) is None,
        },
{
    let mut k: usize = 0;
    while k < answers.len()
        invariant
            k <= answers.len(),
            answer_place(answers@, wanted, k as nat) is None,
        decreases answers.len() - k,
    {
        if answers[k].answer_id == wanted {
            proof {
                lemma_answer_place(answers@, wanted, (k + 1) as nat);
            }
            return Some(k);
        }
        k += 1;
    }
    None
}

/// The first place where an answer is found stays the first.
proof fn lemma_answer_place(answers: Seq<Answer>, wanted: u64, k: nat)
    requires
        k <= answers.len(),
        answer_place(answers, wanted, k) is Some,
    ensures
        answer_place(answers, wanted, answers.len()) == answer_place(answers, wanted, k),
    decreases answers.len() - k,
{
    if k < answers.len() {
        assert(answer_place(answers, wanted, k + 1) == answer_place(answers, wanted, k));
        lemma_answer_place(answers, wanted, k + 1);
    }
}

} // verus!
