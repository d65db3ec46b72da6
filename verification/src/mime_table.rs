//! The table of MIME types and the names of their icons, ordered by MIME
//! type (several types have more than one icon), with the proof that the
//! order holds.
use vstd::prelude::*;
use crate::text::{lex_order, lemma_lex_order_basics, lemma_lex_order_common_prefix};

verus! {

/// Number of entries of the icon table.
pub const MIME_TABLE_LEN: usize = 466;

/// MIME type of entry `i` of the icon table.
pub open spec fn mime_key(i: usize) -> Seq<char> {
    match i {
        0 => "application/affinity"@,
        1 => "application/affinity-template"@,
        2 => "application/apk"@,
        3 => "application/atom+xml"@,
        4 => "application/bitwig-clip"@,
        5 => "application/bitwig-device"@,
        6 => "application/epub+zip"@,
        7 => "application/geo+json"@,
        8 => "application/gml+xml"@,
        9 => "application/gml+xml"@,
        10 => "application/gpx"@,
        11 => "application/gpx+xml"@,
        12 => "application/hwp"@,
        13 => "application/hwpx"@,
        14 => "application/illustrator"@,
        15 => "application/java"@,
        16 => "application/javascript"@,
        17 => "application/json"@,
        18 => "application/loc+xml"@,
        19 => "application/mathematica"@,
        20 => "application/mathematicaplayer"@,
        21 => "application/mbox"@,
        22 => "application/metalink+xml"@,
        23 => "application/metalink4+xml"@,
        24 => "application/octet-stream"@,
        25 => "application/owl+xml"@,
        26 => "application/pdf"@,
        27 => "application/pgp"@,
        28 => "application/pgp-encrypted"@,
        29 => "application/pgp-keys"@,
        30 => "application/pgp-signature"@,
        31 => "application/photoshop"@,
        32 => "application/pkcs10"@,
        33 => "application/pkcs12"@,
        34 => "application/pkcs7-mime"@,
        35 => "application/pkcs7-signature"@,
        36 => "application/pkcs8"@,
        37 => "application/pkix-cert"@,
        38 => "application/postscript"@,
        39 => "application/rss+xml"@,
        40 => "application/schema+json"@,
        41 => "application/slf+xml"@,
        42 => "application/sql"@,
        43 => "application/tcx+xml"@,
        44 => "application/toml"@,
        45 => "application/typescript"@,
        46 => "application/vnd-google-earth-kml"@,
        47 => "application/vnd.adobe.aftereffects.project"@,
        48 => "application/vnd.adobe.aftereffects.template"@,
        49 => "application/vnd.adobe.xd"@,
        50 => "application/vnd.amazon.mobi8-ebook"@,
        51 => "application/vnd.android.package-archive"@,
        52 => "application/vnd.android.package-archive"@,
        53 => "application/vnd.ant.fit"@,
        54 => "application/vnd.appimage"@,
        55 => "application/vnd.coffeescript"@,
        56 => "application/vnd.comicbook+zip"@,
        57 => "application/vnd.comicbook-rar"@,
        58 => "application/vnd.debian.binary-package"@,
        59 => "application/vnd.efi.img"@,
        60 => "application/vnd.efi.iso"@,
        61 => "application/vnd.fai.igc"@,
        62 => "application/vnd.flatpak"@,
        63 => "application/vnd.flatpak.ref"@,
        64 => "application/vnd.geo+json"@,
        65 => "application/vnd.google-apps.document"@,
        66 => "application/vnd.google-apps.document"@,
        67 => "application/vnd.google-apps.drawing"@,
        68 => "application/vnd.google-apps.drawing"@,
        69 => "application/vnd.google-apps.form"@,
        70 => "application/vnd.google-apps.fusiontable"@,
        71 => "application/vnd.google-apps.fusiontable"@,
        72 => "application/vnd.google-apps.map"@,
        73 => "application/vnd.google-apps.presentation"@,
        74 => "application/vnd.google-apps.presentation"@,
        75 => "application/vnd.google-apps.site"@,
        76 => "application/vnd.google-apps.spreadsheet"@,
        77 => "application/vnd.google-earth.kml"@,
        78 => "application/vnd.google-earth.kml+xml"@,
        79 => "application/vnd.google-earth.kmz"@,
        80 => "application/vnd.iccprofile"@,
        81 => "application/vnd.insync.link.drive.doc"@,
        82 => "application/vnd.insync.link.drive.draw"@,
        83 => "application/vnd.insync.link.drive.form"@,
        84 => "application/vnd.insync.link.drive.slides"@,
        85 => "application/vnd.insync.link.drive.table"@,
        86 => "application/vnd.leocad"@,
        87 => "application/vnd.ms-access"@,
        88 => "application/vnd.ms-access"@,
        89 => "application/vnd.ms-excel"@,
        90 => "application/vnd.ms-excel.spreadsheet.macroenabled.12"@,
        91 => "application/vnd.ms-powerpoint"@,
        92 => "application/vnd.ms-powerpoint.presentation.macroEnabled.12"@,
        93 => "application/vnd.ms-word"@,
        94 => "application/vnd.ms-word.document.macroenabled.12"@,
        95 => "application/vnd.nmea.nmea"@,
        96 => "application/vnd.oasis.opendocument.database"@,
        97 => "application/vnd.oasis.opendocument.database"@,
        98 => "application/vnd.oasis.opendocument.database"@,
        99 => "application/vnd.oasis.opendocument.database"@,
        100 => "application/vnd.oasis.opendocument.database"@,
        101 => "application/vnd.oasis.opendocument.database"@,
        102 => "application/vnd.oasis.opendocument.database-template"@,
        103 => "application/vnd.oasis.opendocument.database-template"@,
        104 => "application/vnd.oasis.opendocument.database-template"@,
        105 => "application/vnd.oasis.opendocument.database-template"@,
        106 => "application/vnd.oasis.opendocument.formula"@,
        107 => "application/vnd.oasis.opendocument.formula"@,
        108 => "application/vnd.oasis.opendocument.formula"@,
        109 => "application/vnd.oasis.opendocument.formula-template"@,
        110 => "application/vnd.oasis.opendocument.formula-template"@,
        111 => "application/vnd.oasis.opendocument.formula-template"@,
        112 => "application/vnd.oasis.opendocument.graphics"@,
        113 => "application/vnd.oasis.opendocument.graphics"@,
        114 => "application/vnd.oasis.opendocument.graphics"@,
        115 => "application/vnd.oasis.opendocument.graphics"@,
        116 => "application/vnd.oasis.opendocument.graphics"@,
        117 => "application/vnd.oasis.opendocument.graphics-template"@,
        118 => "application/vnd.oasis.opendocument.graphics-template"@,
        119 => "application/vnd.oasis.opendocument.graphics-template"@,
        120 => "application/vnd.oasis.opendocument.graphics-template"@,
        121 => "application/vnd.oasis.opendocument.graphics-template"@,
        122 => "application/vnd.oasis.opendocument.presentation"@,
        123 => "application/vnd.oasis.opendocument.presentation"@,
        124 => "application/vnd.oasis.opendocument.presentation"@,
        125 => "application/vnd.oasis.opendocument.presentation"@,
        126 => "application/vnd.oasis.opendocument.presentation"@,
        127 => "application/vnd.oasis.opendocument.presentation-template"@,
        128 => "application/vnd.oasis.opendocument.presentation-template"@,
        129 => "application/vnd.oasis.opendocument.presentation-template"@,
        130 => "application/vnd.oasis.opendocument.presentation-template"@,
        131 => "application/vnd.oasis.opendocument.spreadsheet"@,
        132 => "application/vnd.oasis.opendocument.spreadsheet"@,
        133 => "application/vnd.oasis.opendocument.spreadsheet"@,
        134 => "application/vnd.oasis.opendocument.spreadsheet"@,
        135 => "application/vnd.oasis.opendocument.spreadsheet"@,
        136 => "application/vnd.oasis.opendocument.spreadsheet"@,
        137 => "application/vnd.oasis.opendocument.spreadsheet-template"@,
        138 => "application/vnd.oasis.opendocument.spreadsheet-template"@,
        139 => "application/vnd.oasis.opendocument.spreadsheet-template"@,
        140 => "application/vnd.oasis.opendocument.text"@,
        141 => "application/vnd.oasis.opendocument.text"@,
        142 => "application/vnd.oasis.opendocument.text"@,
        143 => "application/vnd.oasis.opendocument.text"@,
        144 => "application/vnd.oasis.opendocument.text"@,
        145 => "application/vnd.oasis.opendocument.text"@,
        146 => "application/vnd.oasis.opendocument.text"@,
        147 => "application/vnd.oasis.opendocument.text"@,
        148 => "application/vnd.oasis.opendocument.text-master"@,
        149 => "application/vnd.oasis.opendocument.text-master"@,
        150 => "application/vnd.oasis.opendocument.text-master"@,
        151 => "application/vnd.oasis.opendocument.text-master-template"@,
        152 => "application/vnd.oasis.opendocument.text-master-template"@,
        153 => "application/vnd.oasis.opendocument.text-master-template"@,
        154 => "application/vnd.oasis.opendocument.text-template"@,
        155 => "application/vnd.oasis.opendocument.text-template"@,
        156 => "application/vnd.oasis.opendocument.text-template"@,
        157 => "application/vnd.oasis.opendocument.text-template"@,
        158 => "application/vnd.oasis.opendocument.text-template"@,
        159 => "application/vnd.oasis.opendocument.text-template"@,
        160 => "application/vnd.oasis.opendocument.text-template"@,
        161 => "application/vnd.oasis.opendocument.text-template"@,
        162 => "application/vnd.oasis.opendocument.text-template"@,
        163 => "application/vnd.oasis.opendocument.text-web"@,
        164 => "application/vnd.oasis.opendocument.text-web"@,
        165 => "application/vnd.oasis.opendocument.text-web"@,
        166 => "application/vnd.oasis.opendocument.text-web"@,
        167 => "application/vnd.oasis.opendocument.text-web"@,
        168 => "application/vnd.oasis.opendocument.text-web"@,
        169 => "application/vnd.openxmlformats-officedocument.presentationml.presentation"@,
        170 => "application/vnd.openxmlformats-officedocument.presentationml.slideshow"@,
        171 => "application/vnd.openxmlformats-officedocument.spreadsheetml.sheet"@,
        172 => "application/vnd.openxmlformats-officedocument.wordprocessingml.document"@,
        173 => "application/vnd.oziexplorer.plt"@,
        174 => "application/vnd.oziexplorer.rte"@,
        175 => "application/vnd.oziexplorer.wpt"@,
        176 => "application/vnd.rmaps.sqlite"@,
        177 => "application/vnd.scribus"@,
        178 => "application/vnd.shp"@,
        179 => "application/vnd.shx"@,
        180 => "application/vnd.snap"@,
        181 => "application/vnd.sqlite2"@,
        182 => "application/vnd.sqlite3"@,
        183 => "application/vnd.sqlite3"@,
        184 => "application/vnd.squashfs"@,
        185 => "application/vnd.tcpdump.pcap"@,
        186 => "application/vnd.wolfram.cdf"@,
        187 => "application/vnd.wolfram.mathematica.package"@,
        188 => "application/vnd.wolfram.nb"@,
        189 => "application/vnd.wolfram.player"@,
        190 => "application/vnd.wolfram.wl"@,
        191 => "application/vnd.wolfram.wls"@,
        192 => "application/wasm"@,
        193 => "application/x-adobe-indesign"@,
        194 => "application/x-apple-diskimage"@,
        195 => "application/x-applix-spreadsheet"@,
        196 => "application/x-audacity-project"@,
        197 => "application/x-audacity-project+sqlite3"@,
        198 => "application/x-bibtex-text-file"@,
        199 => "application/x-bittorrent"@,
        200 => "application/x-bitwig-clip"@,
        201 => "application/x-bitwig-clip"@,
        202 => "application/x-bitwig-device"@,
        203 => "application/x-bitwig-device"@,
        204 => "application/x-bitwig-extension"@,
        205 => "application/x-bitwig-impulse"@,
        206 => "application/x-bitwig-modulator"@,
        207 => "application/x-bitwig-module"@,
        208 => "application/x-bitwig-package"@,
        209 => "application/x-bitwig-preset"@,
        210 => "application/x-bitwig-project"@,
        211 => "application/x-bitwig-remote-controls"@,
        212 => "application/x-bitwig-studio"@,
        213 => "application/x-blender"@,
        214 => "application/x-bps-patch"@,
        215 => "application/x-bsdiff"@,
        216 => "application/x-bzpostscript"@,
        217 => "application/x-cb7"@,
        218 => "application/x-cba"@,
        219 => "application/x-cbr"@,
        220 => "application/x-cbt"@,
        221 => "application/x-cbz"@,
        222 => "application/x-cd-image"@,
        223 => "application/x-clojure"@,
        224 => "application/x-clojurescript"@,
        225 => "application/x-com.bitwig-clip.BitwigStudio"@,
        226 => "application/x-com.bitwig-device.BitwigStudio"@,
        227 => "application/x-com.bitwig.BitwigStudio"@,
        228 => "application/x-compressed-iso"@,
        229 => "application/x-cson"@,
        230 => "application/x-dbf"@,
        231 => "application/x-deb"@,
        232 => "application/x-designer"@,
        233 => "application/x-e-theme"@,
        234 => "application/x-emerald-theme"@,
        235 => "application/x-fender-fenderstudio"@,
        236 => "application/x-fender-jamtrack"@,
        237 => "application/x-fictionbook"@,
        238 => "application/x-fictionbook+xml"@,
        239 => "application/x-firmware"@,
        240 => "application/x-gdbm"@,
        241 => "application/x-gdscript"@,
        242 => "application/x-generic"@,
        243 => "application/x-generic"@,
        244 => "application/x-gettext-translation"@,
        245 => "application/x-godot-project"@,
        246 => "application/x-godot-resource"@,
        247 => "application/x-godot-scene"@,
        248 => "application/x-godot-shader"@,
        249 => "application/x-gpx"@,
        250 => "application/x-gpx+xml"@,
        251 => "application/x-gzpdf"@,
        252 => "application/x-gzpostscript"@,
        253 => "application/x-hwp"@,
        254 => "application/x-hwpx"@,
        255 => "application/x-ips-patch"@,
        256 => "application/x-ipynb+json"@,
        257 => "application/x-iso"@,
        258 => "application/x-iso9600-appimage"@,
        259 => "application/x-jar"@,
        260 => "application/x-java"@,
        261 => "application/x-java-applet"@,
        262 => "application/x-java-archive"@,
        263 => "application/x-javascript"@,
        264 => "application/x-julia"@,
        265 => "application/x-kdenlive"@,
        266 => "application/x-keepass"@,
        267 => "application/x-keepass2"@,
        268 => "application/x-keepassx"@,
        269 => "application/x-keepassxc"@,
        270 => "application/x-keepassxc"@,
        271 => "application/x-kexi-connectiondata"@,
        272 => "application/x-kexiproject-sqlite2"@,
        273 => "application/x-kexiproject-sqlite3"@,
        274 => "application/x-kgetlist"@,
        275 => "application/x-kpresenter"@,
        276 => "application/x-krita"@,
        277 => "application/x-krita-assistant"@,
        278 => "application/x-krita-paintoppresent"@,
        279 => "application/x-ktheme"@,
        280 => "application/x-lzpdf"@,
        281 => "application/x-mobi8-ebook"@,
        282 => "application/x-mobipocket-ebook"@,
        283 => "application/x-model"@,
        284 => "application/x-msdownload"@,
        285 => "application/x-musescore4portable"@,
        286 => "application/x-musescore4portable+xml"@,
        287 => "application/x-nero-burning-rom-image"@,
        288 => "application/x-nero-burning-rom-image"@,
        289 => "application/x-ole-storage"@,
        290 => "application/x-osm+xml"@,
        291 => "application/x-pem-key"@,
        292 => "application/x-perl"@,
        293 => "application/x-photoshop"@,
        294 => "application/x-php"@,
        295 => "application/x-pkcs12"@,
        296 => "application/x-pkcs7"@,
        297 => "application/x-pkcs7-certificates"@,
        298 => "application/x-ptoptimizer-script"@,
        299 => "application/x-python-bytecode"@,
        300 => "application/x-qgis"@,
        301 => "application/x-qgis-layer"@,
        302 => "application/x-qtractor-archive"@,
        303 => "application/x-qtractor-session"@,
        304 => "application/x-qtractor-template"@,
        305 => "application/x-raw-disk-image"@,
        306 => "application/x-raw-disk-image-xz-compressed"@,
        307 => "application/x-raw-floppy-disk-image"@,
        308 => "application/x-rdata"@,
        309 => "application/x-reaper"@,
        310 => "application/x-reaper-backup"@,
        311 => "application/x-reaper-peak"@,
        312 => "application/x-reaper-template"@,
        313 => "application/x-reaper-template"@,
        314 => "application/x-reaper-theme"@,
        315 => "application/x-rpm"@,
        316 => "application/x-ruby"@,
        317 => "application/x-shapefile"@,
        318 => "application/x-shellscript"@,
        319 => "application/x-source-rpm"@,
        320 => "application/x-spectrum"@,
        321 => "application/x-spectrum-tzx"@,
        322 => "application/x-sqlite2"@,
        323 => "application/x-sqlite3"@,
        324 => "application/x-subrip"@,
        325 => "application/x-theme"@,
        326 => "application/x-typescript"@,
        327 => "application/x-virtualbox-hdd"@,
        328 => "application/x-virtualbox-hdd"@,
        329 => "application/x-virtualbox-ova"@,
        330 => "application/x-virtualbox-ova"@,
        331 => "application/x-virtualbox-ovf"@,
        332 => "application/x-virtualbox-ovf"@,
        333 => "application/x-virtualbox-vbox"@,
        334 => "application/x-virtualbox-vbox"@,
        335 => "application/x-virtualbox-vbox-extpack"@,
        336 => "application/x-virtualbox-vbox-extpack"@,
        337 => "application/x-virtualbox-vdi"@,
        338 => "application/x-virtualbox-vdi"@,
        339 => "application/x-virtualbox-vhd"@,
        340 => "application/x-virtualbox-vhd"@,
        341 => "application/x-virtualbox-vmdk"@,
        342 => "application/x-virtualbox-vmdk"@,
        343 => "application/x-windows-themepack"@,
        344 => "application/x-x509-ca-cert"@,
        345 => "application/x-x509-user-cert"@,
        346 => "application/x-xopp"@,
        347 => "application/x-xopp"@,
        348 => "application/x-xopt"@,
        349 => "application/x-xopt"@,
        350 => "application/x-xzpdf"@,
        351 => "application/x-yaml"@,
        352 => "application/x-zim"@,
        353 => "application/x-zip-compressed-fb2"@,
        354 => "application/xml"@,
        355 => "application/xslt+xml"@,
        356 => "application/yaml"@,
        357 => "audio/x-dawproject"@,
        358 => "chemical/x-cache"@,
        359 => "image/vnd.adobe.photoshop"@,
        360 => "image/vnd.djvu"@,
        361 => "image/vnd.djvu+multipage"@,
        362 => "image/vnd.dxf"@,
        363 => "image/x-djvu"@,
        364 => "image/x-generic"@,
        365 => "image/x-krita"@,
        366 => "image/x-photoshop"@,
        367 => "inode/symlink"@,
        368 => "model/obj"@,
        369 => "model/stl"@,
        370 => "model/x-stl-binary"@,
        371 => "model/x.stl-ascii"@,
        372 => "model/x.stl-binary"@,
        373 => "multipart/encrypted"@,
        374 => "multipart/signed"@,
        375 => "text/arduino"@,
        376 => "text/asciidoc"@,
        377 => "text/coffeescript"@,
        378 => "text/css"@,
        379 => "text/csv"@,
        380 => "text/csv-schema"@,
        381 => "text/fsharp"@,
        382 => "text/javascript"@,
        383 => "text/json"@,
        384 => "text/less"@,
        385 => "text/markdown"@,
        386 => "text/pureDataPatch"@,
        387 => "text/rdf+xml"@,
        388 => "text/ruby"@,
        389 => "text/rust"@,
        390 => "text/spreadsheet"@,
        391 => "text/tab-separated-values"@,
        392 => "text/vtt"@,
        393 => "text/x-R"@,
        394 => "text/x-arduino"@,
        395 => "text/x-ass"@,
        396 => "text/x-bibtex"@,
        397 => "text/x-c"@,
        398 => "text/x-c++"@,
        399 => "text/x-c++hdr"@,
        400 => "text/x-c++src"@,
        401 => "text/x-chdr"@,
        402 => "text/x-clojure"@,
        403 => "text/x-clojurescript"@,
        404 => "text/x-cmake"@,
        405 => "text/x-cobol"@,
        406 => "text/x-coffeescript"@,
        407 => "text/x-common-lisp"@,
        408 => "text/x-cpp"@,
        409 => "text/x-cpphdr"@,
        410 => "text/x-cppsrc"@,
        411 => "text/x-csharp"@,
        412 => "text/x-csrc"@,
        413 => "text/x-css"@,
        414 => "text/x-emacs-lisp"@,
        415 => "text/x-fsharp"@,
        416 => "text/x-generic"@,
        417 => "text/x-gettext-translation"@,
        418 => "text/x-gettext-translation-template"@,
        419 => "text/x-go"@,
        420 => "text/x-gradle"@,
        421 => "text/x-gradle-kotlin"@,
        422 => "text/x-hex"@,
        423 => "text/x-java"@,
        424 => "text/x-java-source"@,
        425 => "text/x-javascript"@,
        426 => "text/x-julia"@,
        427 => "text/x-kotlin"@,
        428 => "text/x-less"@,
        429 => "text/x-log"@,
        430 => "text/x-lua"@,
        431 => "text/x-makefile"@,
        432 => "text/x-makefile"@,
        433 => "text/x-markdown"@,
        434 => "text/x-maxima-out"@,
        435 => "text/x-maximasession"@,
        436 => "text/x-meson"@,
        437 => "text/x-ocaml"@,
        438 => "text/x-octave"@,
        439 => "text/x-patch"@,
        440 => "text/x-php"@,
        441 => "text/x-pkgbuild"@,
        442 => "text/x-preview"@,
        443 => "text/x-python"@,
        444 => "text/x-python3"@,
        445 => "text/x-r"@,
        446 => "text/x-r-markdown"@,
        447 => "text/x-r-source"@,
        448 => "text/x-ruby"@,
        449 => "text/x-sass"@,
        450 => "text/x-script"@,
        451 => "text/x-scss"@,
        452 => "text/x-sql"@,
        453 => "text/x-ssa"@,
        454 => "text/x-stex"@,
        455 => "text/x-tex"@,
        456 => "text/x-texinfo"@,
        457 => "text/x-typescript"@,
        458 => "text/x-typst"@,
        459 => "text/x-vala"@,
        460 => "text/x-yaml"@,
        461 => "text/x-zig"@,
        462 => "text/xml"@,
        463 => "text/yaml"@,
        464 => "video/x-generic"@,
        465 => "x-content/ebook-reader"@,
        _ => Seq::empty(),
    }
}

/// Icon file name (without extension) of entry `i` of the icon table.
pub open spec fn mime_icon(i: usize) -> Seq<char> {
    match i {
        0 => "application-affinity"@,
        1 => "application-affinity-template"@,
        2 => "application-apk"@,
        3 => "application-atom+xml"@,
        4 => "application-bitwig-clip"@,
        5 => "application-bitwig-device"@,
        6 => "application-epub+zip"@,
        7 => "application-geo+json"@,
        8 => "application-gml+xml"@,
        9 => "qgis-gml"@,
        10 => "application-gpx"@,
        11 => "application-gpx+xml"@,
        12 => "application-hwp"@,
        13 => "application-hwpx"@,
        14 => "application-illustrator"@,
        15 => "application-java"@,
        16 => "application-javascript"@,
        17 => "application-json"@,
        18 => "application-loc+xml"@,
        19 => "application-mathematica"@,
        20 => "application-mathematicaplayer"@,
        21 => "application-mbox"@,
        22 => "application-metalink+xml"@,
        23 => "application-metalink4+xml"@,
        24 => "application-octet-stream"@,
        25 => "application-owl+xml"@,
        26 => "application-pdf"@,
        27 => "application-pgp"@,
        28 => "application-pgp-encrypted"@,
        29 => "application-pgp-keys"@,
        30 => "application-pgp-signature"@,
        31 => "application-photoshop"@,
        32 => "application-pkcs10"@,
        33 => "application-pkcs12"@,
        34 => "application-pkcs7-mime"@,
        35 => "application-pkcs7-signature"@,
        36 => "application-pkcs8"@,
        37 => "application-pkix-cert"@,
        38 => "application-postscript"@,
        39 => "application-rss+xml"@,
        40 => "application-schema+json"@,
        41 => "application-slf+xml"@,
        42 => "application-sql"@,
        43 => "application-tcx+xml"@,
        44 => "application-toml"@,
        45 => "application-typescript"@,
        46 => "application-vnd-google-earth-kml"@,
        47 => "application-vnd.adobe.aftereffects.project"@,
        48 => "application-vnd.adobe.aftereffects.template"@,
        49 => "application-vnd.adobe.xd"@,
        50 => "application-vnd.amazon.mobi8-ebook"@,
        51 => "android-package-archive"@,
        52 => "application-vnd.android.package-archive"@,
        53 => "application-vnd.ant.fit"@,
        54 => "application-vnd.appimage"@,
        55 => "application-vnd.coffeescript"@,
        56 => "application-vnd.comicbook+zip"@,
        57 => "application-vnd.comicbook-rar"@,
        58 => "application-vnd.debian.binary-package"@,
        59 => "application-vnd.efi.img"@,
        60 => "application-vnd.efi.iso"@,
        61 => "application-vnd.fai.igc"@,
        62 => "application-vnd.flatpak"@,
        63 => "application-vnd.flatpak.ref"@,
        64 => "application-vnd.geo+json"@,
        65 => "application-vnd.google-apps.document"@,
        66 => "gddoc"@,
        67 => "application-vnd.google-apps.drawing"@,
        68 => "gddraw"@,
        69 => "gdform"@,
        70 => "application-vnd.google-apps.fusiontable"@,
        71 => "gdtable"@,
        72 => "application-vnd.google-apps.map"@,
        73 => "application-vnd.google-apps.presentation"@,
        74 => "gdslides"@,
        75 => "application-vnd.google-apps.site"@,
        76 => "application-vnd.google-apps.spreadsheet"@,
        77 => "application-vnd.google-earth.kml"@,
        78 => "application-vnd.google-earth.kml+xml"@,
        79 => "application-vnd.google-earth.kmz"@,
        80 => "application-vnd.iccprofile"@,
        81 => "application-vnd.insync.link.drive.doc"@,
        82 => "application-vnd.insync.link.drive.draw"@,
        83 => "application-vnd.insync.link.drive.form"@,
        84 => "application-vnd.insync.link.drive.slides"@,
        85 => "application-vnd.insync.link.drive.table"@,
        86 => "application-vnd.leocad"@,
        87 => "application-vnd.ms-access"@,
        88 => "office-database"@,
        89 => "application-vnd.ms-excel"@,
        90 => "application-vnd.ms-excel.spreadsheet.macroenabled.12"@,
        91 => "application-vnd.ms-powerpoint"@,
        92 => "application-vnd.ms-powerpoint.presentation.macroEnabled.12"@,
        93 => "application-vnd.ms-word"@,
        94 => "application-vnd.ms-word.document.macroenabled.12"@,
        95 => "application-vnd.nmea.nmea"@,
        96 => "application-vnd.oasis.opendocument.database"@,
        97 => "libreoffice-database"@,
        98 => "libreoffice-oasis-database"@,
        99 => "oasis-database"@,
        100 => "openoffice4-database"@,
        101 => "openoffice4-oasis-database"@,
        102 => "application-vnd.oasis.opendocument.database-template"@,
        103 => "libreoffice-database-template"@,
        104 => "libreoffice-oasis-database-template"@,
        105 => "oasis-database-template"@,
        106 => "libreoffice-formula"@,
        107 => "libreoffice-oasis-formula"@,
        108 => "oasis-formula"@,
        109 => "libreoffice-formula-template"@,
        110 => "libreoffice-oasis-formula-template"@,
        111 => "oasis-formula-template"@,
        112 => "libreoffice-drawing"@,
        113 => "libreoffice-oasis-drawing"@,
        114 => "oasis-drawing"@,
        115 => "openoffice4-drawing"@,
        116 => "openoffice4-oasis-drawing"@,
        117 => "libreoffice-drawing-template"@,
        118 => "libreoffice-oasis-drawing-template"@,
        119 => "oasis-drawing-template"@,
        120 => "openoffice4-drawing-template"@,
        121 => "openoffice4-oasis-drawing-template"@,
        122 => "libreoffice-oasis-presentation"@,
        123 => "libreoffice-presentation"@,
        124 => "oasis-presentation"@,
        125 => "openoffice4-oasis-presentation"@,
        126 => "openoffice4-presentation"@,
        127 => "libreoffice-oasis-presentation-template"@,
        128 => "libreoffice-presentation-template"@,
        129 => "oasis-presentation-template"@,
        130 => "openoffice4-presentation-template"@,
        131 => "application-vnd.oasis.opendocument.spreadsheet"@,
        132 => "libreoffice-oasis-spreadsheet"@,
        133 => "libreoffice-spreadsheet"@,
        134 => "oasis-spreadsheet"@,
        135 => "openoffice4-oasis-spreadsheet"@,
        136 => "openoffice4-spreadsheet"@,
        137 => "libreoffice-oasis-spreadsheet-template"@,
        138 => "libreoffice-spreadsheet-template"@,
        139 => "oasis-spreadsheet-template"@,
        140 => "application-vnd.oasis.opendocument.text"@,
        141 => "libreoffice-empty"@,
        142 => "libreoffice-oasis-empty"@,
        143 => "libreoffice-oasis-text"@,
        144 => "libreoffice-text"@,
        145 => "oasis-empty"@,
        146 => "oasis-text"@,
        147 => "openoffice4-oasis-text"@,
        148 => "libreoffice-master-document"@,
        149 => "libreoffice-oasis-master-document"@,
        150 => "oasis-master-document"@,
        151 => "libreoffice-master-document-template"@,
        152 => "libreoffice-oasis-master-document-template"@,
        153 => "oasis-master-document-template"@,
        154 => "application-vnd.oasis.opendocument.text-template"@,
        155 => "libreoffice-empty-template"@,
        156 => "libreoffice-oasis-empty-template"@,
        157 => "libreoffice-oasis-text-template"@,
        158 => "libreoffice-text-template"@,
        159 => "oasis-empty-template"@,
        160 => "oasis-text-template"@,
        161 => "openoffice4-oasis-text-template"@,
        162 => "openoffice4-text-template"@,
        163 => "libreoffice-oasis-web"@,
        164 => "libreoffice-oasis-web-template"@,
        165 => "libreoffice-web"@,
        166 => "libreoffice-web-template"@,
        167 => "oasis-web"@,
        168 => "oasis-web-template"@,
        169 => "application-vnd.openxmlformats-officedocument.presentationml.presentation"@,
        170 => "application-vnd.openxmlformats-officedocument.presentationml.slideshow"@,
        171 => "application-vnd.openxmlformats-officedocument.spreadsheetml.sheet"@,
        172 => "application-vnd.openxmlformats-officedocument.wordprocessingml.document"@,
        173 => "application-vnd.oziexplorer.plt"@,
        174 => "application-vnd.oziexplorer.rte"@,
        175 => "application-vnd.oziexplorer.wpt"@,
        176 => "application-vnd.rmaps.sqlite"@,
        177 => "application-vnd.scribus"@,
        178 => "application-vnd.shp"@,
        179 => "application-vnd.shx"@,
        180 => "application-vnd.snap"@,
        181 => "application-vnd.sqlite2"@,
        182 => "application-vnd.sqlite3"@,
        183 => "qgis-sqlite"@,
        184 => "application-vnd.squashfs"@,
        185 => "org.wireshark.Wireshark-mimetype"@,
        186 => "application-vnd.wolfram.cdf"@,
        187 => "application-vnd.wolfram.mathematica.package"@,
        188 => "application-vnd.wolfram.nb"@,
        189 => "application-vnd.wolfram.player"@,
        190 => "application-vnd.wolfram.wl"@,
        191 => "application-vnd.wolfram.wls"@,
        192 => "application-wasm"@,
        193 => "application-x-adobe-indesign"@,
        194 => "application-x-apple-diskimage"@,
        195 => "application-x-applix-spreadsheet"@,
        196 => "application-x-audacity-project"@,
        197 => "application-x-audacity-project+sqlite3"@,
        198 => "application-x-bibtex-text-file"@,
        199 => "application-x-bittorrent"@,
        200 => "application-x-bitwig-clip"@,
        201 => "com.bitwig.BitwigStudio.application-bitwig-clip"@,
        202 => "application-x-bitwig-device"@,
        203 => "com.bitwig.BitwigStudio.application-bitwig-device"@,
        204 => "com.bitwig.BitwigStudio.application-bitwig-extension"@,
        205 => "com.bitwig.BitwigStudio.application-bitwig-impulse"@,
        206 => "com.bitwig.BitwigStudio.application-bitwig-modulator"@,
        207 => "com.bitwig.BitwigStudio.application-bitwig-module"@,
        208 => "com.bitwig.BitwigStudio.application-bitwig-package"@,
        209 => "com.bitwig.BitwigStudio.application-bitwig-preset"@,
        210 => "com.bitwig.BitwigStudio.application-bitwig-project"@,
        211 => "com.bitwig.BitwigStudio.application-bitwig-remote-controls"@,
        212 => "application-x-bitwig-studio"@,
        213 => "application-x-blender"@,
        214 => "application-x-bps-patch"@,
        215 => "application-x-bsdiff"@,
        216 => "application-x-bzpostscript"@,
        217 => "application-x-cb7"@,
        218 => "application-x-cba"@,
        219 => "application-x-cbr"@,
        220 => "application-x-cbt"@,
        221 => "application-x-cbz"@,
        222 => "application-x-cd-image"@,
        223 => "application-x-clojure"@,
        224 => "application-x-clojurescript"@,
        225 => "application-x-com.bitwig-clip.BitwigStudio"@,
        226 => "application-x-com.bitwig-device.BitwigStudio"@,
        227 => "application-x-com.bitwig.BitwigStudio"@,
        228 => "application-x-compressed-iso"@,
        229 => "application-x-cson"@,
        230 => "application-x-dbf"@,
        231 => "application-x-deb"@,
        232 => "application-x-designer"@,
        233 => "application-x-e-theme"@,
        234 => "application-x-emerald-theme"@,
        235 => "com.fender.studio.application-x.fender-fenderstudio"@,
        236 => "com.fender.studio.application-x.fender-jamtrack"@,
        237 => "application-x-fictionbook"@,
        238 => "application-x-fictionbook+xml"@,
        239 => "application-x-firmware"@,
        240 => "application-x-gdbm"@,
        241 => "application-x-gdscript"@,
        242 => "application-x-generic"@,
        243 => "package-x-generic"@,
        244 => "application-x-gettext-translation"@,
        245 => "application-x-godot-project"@,
        246 => "application-x-godot-resource"@,
        247 => "application-x-godot-scene"@,
        248 => "application-x-godot-shader"@,
        249 => "application-x-gpx"@,
        250 => "application-x-gpx+xml"@,
        251 => "application-x-gzpdf"@,
        252 => "application-x-gzpostscript"@,
        253 => "application-x-hwp"@,
        254 => "application-x-hwpx"@,
        255 => "application-x-ips-patch"@,
        256 => "application-x-ipynb+json"@,
        257 => "application-x-iso"@,
        258 => "application-x-iso9600-appimage"@,
        259 => "application-x-jar"@,
        260 => "application-x-java"@,
        261 => "application-x-java-applet"@,
        262 => "application-x-java-archive"@,
        263 => "application-x-javascript"@,
        264 => "application-x-julia"@,
        265 => "application-x-kdenlive"@,
        266 => "application-x-keepass"@,
        267 => "application-x-keepass2"@,
        268 => "application-x-keepassx"@,
        269 => "application-x-keepassxc"@,
        270 => "org.keepassxc.KeePassXC-application-x-keepassxc"@,
        271 => "application-x-kexi-connectiondata"@,
        272 => "application-x-kexiproject-sqlite2"@,
        273 => "application-x-kexiproject-sqlite3"@,
        274 => "application-x-kgetlist"@,
        275 => "application-x-kpresenter"@,
        276 => "application-x-krita"@,
        277 => "application-x-krita-assistant"@,
        278 => "application-x-krita-paintoppresent"@,
        279 => "application-x-ktheme"@,
        280 => "application-x-lzpdf"@,
        281 => "application-x-mobi8-ebook"@,
        282 => "application-x-mobipocket-ebook"@,
        283 => "application-x-model"@,
        284 => "application-x-msdownload"@,
        285 => "application-x-musescore4portable"@,
        286 => "application-x-musescore4portable+xml"@,
        287 => "gnome-mime-application-x-nero-disk-image"@,
        288 => "nero-disk-image"@,
        289 => "application-x-ole-storage"@,
        290 => "application-x-osm+xml"@,
        291 => "application-x-pem-key"@,
        292 => "application-x-perl"@,
        293 => "application-x-photoshop"@,
        294 => "application-x-php"@,
        295 => "application-x-pkcs12"@,
        296 => "application-x-pkcs7"@,
        297 => "application-x-pkcs7-certificates"@,
        298 => "application-x-ptoptimizer-script"@,
        299 => "application-x-python-bytecode"@,
        300 => "qgis-qgs"@,
        301 => "qgis-qlr"@,
        302 => "org.rncbc.qtractor.application-x-qtractor-archive"@,
        303 => "org.rncbc.qtractor.application-x-qtractor-session"@,
        304 => "org.rncbc.qtractor.application-x-qtractor-template"@,
        305 => "application-x-raw-disk-image"@,
        306 => "application-x-raw-disk-image-xz-compressed"@,
        307 => "application-x-raw-floppy-disk-image"@,
        308 => "application-x-rdata"@,
        309 => "cockos-reaper-document"@,
        310 => "cockos-reaper-backup"@,
        311 => "cockos-reaper-peak"@,
        312 => "cockos-reaper-template2"@,
        313 => "cockos-reaper-template"@,
        314 => "cockos-reaper-theme"@,
        315 => "application-x-rpm"@,
        316 => "application-x-ruby"@,
        317 => "qgis-shp"@,
        318 => "application-x-shellscript"@,
        319 => "application-x-source-rpm"@,
        320 => "application-x-spectrum"@,
        321 => "application-x-spectrum-tzx"@,
        322 => "application-x-sqlite2"@,
        323 => "application-x-sqlite3"@,
        324 => "application-x-subrip"@,
        325 => "application-x-theme"@,
        326 => "application-x-typescript"@,
        327 => "application-x-virtualbox-hdd"@,
        328 => "virtualbox-hdd"@,
        329 => "application-x-virtualbox-ova"@,
        330 => "virtualbox-ova"@,
        331 => "application-x-virtualbox-ovf"@,
        332 => "virtualbox-ovf"@,
        333 => "application-x-virtualbox-vbox"@,
        334 => "virtualbox-vbox"@,
        335 => "application-x-virtualbox-vbox-extpack"@,
        336 => "virtualbox-vbox-extpack"@,
        337 => "application-x-virtualbox-vdi"@,
        338 => "virtualbox-vdi"@,
        339 => "application-x-virtualbox-vhd"@,
        340 => "virtualbox-vhd"@,
        341 => "application-x-virtualbox-vmdk"@,
        342 => "virtualbox-vmdk"@,
        343 => "application-x-windows-themepack"@,
        344 => "application-x-x509-ca-cert"@,
        345 => "application-x-x509-user-cert"@,
        346 => "application-x-xopp"@,
        347 => "gnome-mime-application-x-xopp"@,
        348 => "application-x-xopt"@,
        349 => "gnome-mime-application-x-xopt"@,
        350 => "application-x-xzpdf"@,
        351 => "application-x-yaml"@,
        352 => "org.kiwix.desktop.x-zim_source"@,
        353 => "application-x-zip-compressed-fb2"@,
        354 => "application-xml"@,
        355 => "application-xslt+xml"@,
        356 => "application-yaml"@,
        357 => "com.bitwig.BitwigStudio.audio-x.dawproject"@,
        358 => "chemical-x-cache"@,
        359 => "image-vnd.adobe.photoshop"@,
        360 => "image-vnd.djvu"@,
        361 => "image-vnd.djvu+multipage"@,
        362 => "qgis-dxf"@,
        363 => "image-x-djvu"@,
        364 => "image-x-generic"@,
        365 => "image-x-krita"@,
        366 => "image-x-photoshop"@,
        367 => "inode-symlink"@,
        368 => "model-obj"@,
        369 => "model-stl"@,
        370 => "model-x-stl-binary"@,
        371 => "model-x.stl-ascii"@,
        372 => "model-x.stl-binary"@,
        373 => "multipart-encrypted"@,
        374 => "multipart-signed"@,
        375 => "text-arduino"@,
        376 => "text-asciidoc"@,
        377 => "text-coffeescript"@,
        378 => "text-css"@,
        379 => "text-csv"@,
        380 => "text-csv-schema"@,
        381 => "text-fsharp"@,
        382 => "text-javascript"@,
        383 => "text-json"@,
        384 => "text-less"@,
        385 => "text-markdown"@,
        386 => "text-pureDataPatch"@,
        387 => "text-rdf+xml"@,
        388 => "text-ruby"@,
        389 => "text-rust"@,
        390 => "text-spreadsheet"@,
        391 => "text-tab-separated-values"@,
        392 => "text-vtt"@,
        393 => "text-x-R"@,
        394 => "text-x-arduino"@,
        395 => "text-x-ass"@,
        396 => "text-x-bibtex"@,
        397 => "text-x-c"@,
        398 => "text-x-c++"@,
        399 => "text-x-c++hdr"@,
        400 => "text-x-c++src"@,
        401 => "text-x-chdr"@,
        402 => "text-x-clojure"@,
        403 => "text-x-clojurescript"@,
        404 => "text-x-cmake"@,
        405 => "text-x-cobol"@,
        406 => "text-x-coffeescript"@,
        407 => "text-x-common-lisp"@,
        408 => "text-x-cpp"@,
        409 => "text-x-cpphdr"@,
        410 => "text-x-cppsrc"@,
        411 => "text-x-csharp"@,
        412 => "text-x-csrc"@,
        413 => "text-x-css"@,
        414 => "text-x-emacs-lisp"@,
        415 => "text-x-fsharp"@,
        416 => "text-x-generic"@,
        417 => "text-x-gettext-translation"@,
        418 => "text-x-gettext-translation-template"@,
        419 => "text-x-go"@,
        420 => "text-x-gradle"@,
        421 => "text-x-gradle-kotlin"@,
        422 => "text-x-hex"@,
        423 => "text-x-java"@,
        424 => "text-x-java-source"@,
        425 => "text-x-javascript"@,
        426 => "text-x-julia"@,
        427 => "text-x-kotlin"@,
        428 => "text-x-less"@,
        429 => "text-x-log"@,
        430 => "text-x-lua"@,
        431 => "gnome-mime-text-x-makefile"@,
        432 => "text-x-makefile"@,
        433 => "text-x-markdown"@,
        434 => "text-x-maxima-out"@,
        435 => "text-x-maximasession"@,
        436 => "text-x-meson"@,
        437 => "text-x-ocaml"@,
        438 => "text-x-octave"@,
        439 => "text-x-patch"@,
        440 => "text-x-php"@,
        441 => "text-x-pkgbuild"@,
        442 => "text-x-preview"@,
        443 => "text-x-python"@,
        444 => "text-x-python3"@,
        445 => "text-x-r"@,
        446 => "text-x-r-markdown"@,
        447 => "text-x-r-source"@,
        448 => "text-x-ruby"@,
        449 => "text-x-sass"@,
        450 => "text-x-script"@,
        451 => "text-x-scss"@,
        452 => "text-x-sql"@,
        453 => "text-x-ssa"@,
        454 => "text-x-stex"@,
        455 => "text-x-tex"@,
        456 => "text-x-texinfo"@,
        457 => "text-x-typescript"@,
        458 => "text-x-typst"@,
        459 => "text-x-vala"@,
        460 => "text-x-yaml"@,
        461 => "text-x-zig"@,
        462 => "text-xml"@,
        463 => "text-yaml"@,
        464 => "video-x-generic"@,
        465 => "x-content-ebook-reader"@,
        _ => Seq::empty(),
    }
}

/// Entry `i` of the icon table: its MIME type and its icon name.
pub fn mime_entry(i: usize) -> (e: (&'static str, &'static str))
    requires
        i < MIME_TABLE_LEN,
    ensures
        e.0@ == mime_key(i),
        e.1@ == mime_icon(i),
{
    match i {
        0 => ("application/affinity", "application-affinity"),
        1 => ("application/affinity-template", "application-affinity-template"),
        2 => ("application/apk", "application-apk"),
        3 => ("application/atom+xml", "application-atom+xml"),
        4 => ("application/bitwig-clip", "application-bitwig-clip"),
        5 => ("application/bitwig-device", "application-bitwig-device"),
        6 => ("application/epub+zip", "application-epub+zip"),
        7 => ("application/geo+json", "application-geo+json"),
        8 => ("application/gml+xml", "application-gml+xml"),
        9 => ("application/gml+xml", "qgis-gml"),
        10 => ("application/gpx", "application-gpx"),
        11 => ("application/gpx+xml", "application-gpx+xml"),
        12 => ("application/hwp", "application-hwp"),
        13 => ("application/hwpx", "application-hwpx"),
        14 => ("application/illustrator", "application-illustrator"),
        15 => ("application/java", "application-java"),
        16 => ("application/javascript", "application-javascript"),
        17 => ("application/json", "application-json"),
        18 => ("application/loc+xml", "application-loc+xml"),
        19 => ("application/mathematica", "application-mathematica"),
        20 => ("application/mathematicaplayer", "application-mathematicaplayer"),
        21 => ("application/mbox", "application-mbox"),
        22 => ("application/metalink+xml", "application-metalink+xml"),
        23 => ("application/metalink4+xml", "application-metalink4+xml"),
        24 => ("application/octet-stream", "application-octet-stream"),
        25 => ("application/owl+xml", "application-owl+xml"),
        26 => ("application/pdf", "application-pdf"),
        27 => ("application/pgp", "application-pgp"),
        28 => ("application/pgp-encrypted", "application-pgp-encrypted"),
        29 => ("application/pgp-keys", "application-pgp-keys"),
        30 => ("application/pgp-signature", "application-pgp-signature"),
        31 => ("application/photoshop", "application-photoshop"),
        32 => ("application/pkcs10", "application-pkcs10"),
        33 => ("application/pkcs12", "application-pkcs12"),
        34 => ("application/pkcs7-mime", "application-pkcs7-mime"),
        35 => ("application/pkcs7-signature", "application-pkcs7-signature"),
        36 => ("application/pkcs8", "application-pkcs8"),
        37 => ("application/pkix-cert", "application-pkix-cert"),
        38 => ("application/postscript", "application-postscript"),
        39 => ("application/rss+xml", "application-rss+xml"),
        40 => ("application/schema+json", "application-schema+json"),
        41 => ("application/slf+xml", "application-slf+xml"),
        42 => ("application/sql", "application-sql"),
        43 => ("application/tcx+xml", "application-tcx+xml"),
        44 => ("application/toml", "application-toml"),
        45 => ("application/typescript", "application-typescript"),
        46 => ("application/vnd-google-earth-kml", "application-vnd-google-earth-kml"),
        47 => ("application/vnd.adobe.aftereffects.project", "application-vnd.adobe.aftereffects.project"),
        48 => ("application/vnd.adobe.aftereffects.template", "application-vnd.adobe.aftereffects.template"),
        49 => ("application/vnd.adobe.xd", "application-vnd.adobe.xd"),
        50 => ("application/vnd.amazon.mobi8-ebook", "application-vnd.amazon.mobi8-ebook"),
        51 => ("application/vnd.android.package-archive", "android-package-archive"),
        52 => ("application/vnd.android.package-archive", "application-vnd.android.package-archive"),
        53 => ("application/vnd.ant.fit", "application-vnd.ant.fit"),
        54 => ("application/vnd.appimage", "application-vnd.appimage"),
        55 => ("application/vnd.coffeescript", "application-vnd.coffeescript"),
        56 => ("application/vnd.comicbook+zip", "application-vnd.comicbook+zip"),
        57 => ("application/vnd.comicbook-rar", "application-vnd.comicbook-rar"),
        58 => ("application/vnd.debian.binary-package", "application-vnd.debian.binary-package"),
        59 => ("application/vnd.efi.img", "application-vnd.efi.img"),
        60 => ("application/vnd.efi.iso", "application-vnd.efi.iso"),
        61 => ("application/vnd.fai.igc", "application-vnd.fai.igc"),
        62 => ("application/vnd.flatpak", "application-vnd.flatpak"),
        63 => ("application/vnd.flatpak.ref", "application-vnd.flatpak.ref"),
        64 => ("application/vnd.geo+json", "application-vnd.geo+json"),
        65 => ("application/vnd.google-apps.document", "application-vnd.google-apps.document"),
        66 => ("application/vnd.google-apps.document", "gddoc"),
        67 => ("application/vnd.google-apps.drawing", "application-vnd.google-apps.drawing"),
        68 => ("application/vnd.google-apps.drawing", "gddraw"),
        69 => ("application/vnd.google-apps.form", "gdform"),
        70 => ("application/vnd.google-apps.fusiontable", "application-vnd.google-apps.fusiontable"),
        71 => ("application/vnd.google-apps.fusiontable", "gdtable"),
        72 => ("application/vnd.google-apps.map", "application-vnd.google-apps.map"),
        73 => ("application/vnd.google-apps.presentation", "application-vnd.google-apps.presentation"),
        74 => ("application/vnd.google-apps.presentation", "gdslides"),
        75 => ("application/vnd.google-apps.site", "application-vnd.google-apps.site"),
        76 => ("application/vnd.google-apps.spreadsheet", "application-vnd.google-apps.spreadsheet"),
        77 => ("application/vnd.google-earth.kml", "application-vnd.google-earth.kml"),
        78 => ("application/vnd.google-earth.kml+xml", "application-vnd.google-earth.kml+xml"),
        79 => ("application/vnd.google-earth.kmz", "application-vnd.google-earth.kmz"),
        80 => ("application/vnd.iccprofile", "application-vnd.iccprofile"),
        81 => ("application/vnd.insync.link.drive.doc", "application-vnd.insync.link.drive.doc"),
        82 => ("application/vnd.insync.link.drive.draw", "application-vnd.insync.link.drive.draw"),
        83 => ("application/vnd.insync.link.drive.form", "application-vnd.insync.link.drive.form"),
        84 => ("application/vnd.insync.link.drive.slides", "application-vnd.insync.link.drive.slides"),
        85 => ("application/vnd.insync.link.drive.table", "application-vnd.insync.link.drive.table"),
        86 => ("application/vnd.leocad", "application-vnd.leocad"),
        87 => ("application/vnd.ms-access", "application-vnd.ms-access"),
        88 => ("application/vnd.ms-access", "office-database"),
        89 => ("application/vnd.ms-excel", "application-vnd.ms-excel"),
        90 => ("application/vnd.ms-excel.spreadsheet.macroenabled.12", "application-vnd.ms-excel.spreadsheet.macroenabled.12"),
        91 => ("application/vnd.ms-powerpoint", "application-vnd.ms-powerpoint"),
        92 => ("application/vnd.ms-powerpoint.presentation.macroEnabled.12", "application-vnd.ms-powerpoint.presentation.macroEnabled.12"),
        93 => ("application/vnd.ms-word", "application-vnd.ms-word"),
        94 => ("application/vnd.ms-word.document.macroenabled.12", "application-vnd.ms-word.document.macroenabled.12"),
        95 => ("application/vnd.nmea.nmea", "application-vnd.nmea.nmea"),
        96 => ("application/vnd.oasis.opendocument.database", "application-vnd.oasis.opendocument.database"),
        97 => ("application/vnd.oasis.opendocument.database", "libreoffice-database"),
        98 => ("application/vnd.oasis.opendocument.database", "libreoffice-oasis-database"),
        99 => ("application/vnd.oasis.opendocument.database", "oasis-database"),
        100 => ("application/vnd.oasis.opendocument.database", "openoffice4-database"),
        101 => ("application/vnd.oasis.opendocument.database", "openoffice4-oasis-database"),
        102 => ("application/vnd.oasis.opendocument.database-template", "application-vnd.oasis.opendocument.database-template"),
        103 => ("application/vnd.oasis.opendocument.database-template", "libreoffice-database-template"),
        104 => ("application/vnd.oasis.opendocument.database-template", "libreoffice-oasis-database-template"),
        105 => ("application/vnd.oasis.opendocument.database-template", "oasis-database-template"),
        106 => ("application/vnd.oasis.opendocument.formula", "libreoffice-formula"),
        107 => ("application/vnd.oasis.opendocument.formula", "libreoffice-oasis-formula"),
        108 => ("application/vnd.oasis.opendocument.formula", "oasis-formula"),
        109 => ("application/vnd.oasis.opendocument.formula-template", "libreoffice-formula-template"),
        110 => ("application/vnd.oasis.opendocument.formula-template", "libreoffice-oasis-formula-template"),
        111 => ("application/vnd.oasis.opendocument.formula-template", "oasis-formula-template"),
        112 => ("application/vnd.oasis.opendocument.graphics", "libreoffice-drawing"),
        113 => ("application/vnd.oasis.opendocument.graphics", "libreoffice-oasis-drawing"),
        114 => ("application/vnd.oasis.opendocument.graphics", "oasis-drawing"),
        115 => ("application/vnd.oasis.opendocument.graphics", "openoffice4-drawing"),
        116 => ("application/vnd.oasis.opendocument.graphics", "openoffice4-oasis-drawing"),
        117 => ("application/vnd.oasis.opendocument.graphics-template", "libreoffice-drawing-template"),
        118 => ("application/vnd.oasis.opendocument.graphics-template", "libreoffice-oasis-drawing-template"),
        119 => ("application/vnd.oasis.opendocument.graphics-template", "oasis-drawing-template"),
        120 => ("application/vnd.oasis.opendocument.graphics-template", "openoffice4-drawing-template"),
        121 => ("application/vnd.oasis.opendocument.graphics-template", "openoffice4-oasis-drawing-template"),
        122 => ("application/vnd.oasis.opendocument.presentation", "libreoffice-oasis-presentation"),
        123 => ("application/vnd.oasis.opendocument.presentation", "libreoffice-presentation"),
        124 => ("application/vnd.oasis.opendocument.presentation", "oasis-presentation"),
        125 => ("application/vnd.oasis.opendocument.presentation", "openoffice4-oasis-presentation"),
        126 => ("application/vnd.oasis.opendocument.presentation", "openoffice4-presentation"),
        127 => ("application/vnd.oasis.opendocument.presentation-template", "libreoffice-oasis-presentation-template"),
        128 => ("application/vnd.oasis.opendocument.presentation-template", "libreoffice-presentation-template"),
        129 => ("application/vnd.oasis.opendocument.presentation-template", "oasis-presentation-template"),
        130 => ("application/vnd.oasis.opendocument.presentation-template", "openoffice4-presentation-template"),
        131 => ("application/vnd.oasis.opendocument.spreadsheet", "application-vnd.oasis.opendocument.spreadsheet"),
        132 => ("application/vnd.oasis.opendocument.spreadsheet", "libreoffice-oasis-spreadsheet"),
        133 => ("application/vnd.oasis.opendocument.spreadsheet", "libreoffice-spreadsheet"),
        134 => ("application/vnd.oasis.opendocument.spreadsheet", "oasis-spreadsheet"),
        135 => ("application/vnd.oasis.opendocument.spreadsheet", "openoffice4-oasis-spreadsheet"),
        136 => ("application/vnd.oasis.opendocument.spreadsheet", "openoffice4-spreadsheet"),
        137 => ("application/vnd.oasis.opendocument.spreadsheet-template", "libreoffice-oasis-spreadsheet-template"),
        138 => ("application/vnd.oasis.opendocument.spreadsheet-template", "libreoffice-spreadsheet-template"),
        139 => ("application/vnd.oasis.opendocument.spreadsheet-template", "oasis-spreadsheet-template"),
        140 => ("application/vnd.oasis.opendocument.text", "application-vnd.oasis.opendocument.text"),
        141 => ("application/vnd.oasis.opendocument.text", "libreoffice-empty"),
        142 => ("application/vnd.oasis.opendocument.text", "libreoffice-oasis-empty"),
        143 => ("application/vnd.oasis.opendocument.text", "libreoffice-oasis-text"),
        144 => ("application/vnd.oasis.opendocument.text", "libreoffice-text"),
        145 => ("application/vnd.oasis.opendocument.text", "oasis-empty"),
        146 => ("application/vnd.oasis.opendocument.text", "oasis-text"),
        147 => ("application/vnd.oasis.opendocument.text", "openoffice4-oasis-text"),
        148 => ("application/vnd.oasis.opendocument.text-master", "libreoffice-master-document"),
        149 => ("application/vnd.oasis.opendocument.text-master", "libreoffice-oasis-master-document"),
        150 => ("application/vnd.oasis.opendocument.text-master", "oasis-master-document"),
        151 => ("application/vnd.oasis.opendocument.text-master-template", "libreoffice-master-document-template"),
        152 => ("application/vnd.oasis.opendocument.text-master-template", "libreoffice-oasis-master-document-template"),
        153 => ("application/vnd.oasis.opendocument.text-master-template", "oasis-master-document-template"),
        154 => ("application/vnd.oasis.opendocument.text-template", "application-vnd.oasis.opendocument.text-template"),
        155 => ("application/vnd.oasis.opendocument.text-template", "libreoffice-empty-template"),
        156 => ("application/vnd.oasis.opendocument.text-template", "libreoffice-oasis-empty-template"),
        157 => ("application/vnd.oasis.opendocument.text-template", "libreoffice-oasis-text-template"),
        158 => ("application/vnd.oasis.opendocument.text-template", "libreoffice-text-template"),
        159 => ("application/vnd.oasis.opendocument.text-template", "oasis-empty-template"),
        160 => ("application/vnd.oasis.opendocument.text-template", "oasis-text-template"),
        161 => ("application/vnd.oasis.opendocument.text-template", "openoffice4-oasis-text-template"),
        162 => ("application/vnd.oasis.opendocument.text-template", "openoffice4-text-template"),
        163 => ("application/vnd.oasis.opendocument.text-web", "libreoffice-oasis-web"),
        164 => ("application/vnd.oasis.opendocument.text-web", "libreoffice-oasis-web-template"),
        165 => ("application/vnd.oasis.opendocument.text-web", "libreoffice-web"),
        166 => ("application/vnd.oasis.opendocument.text-web", "libreoffice-web-template"),
        167 => ("application/vnd.oasis.opendocument.text-web", "oasis-web"),
        168 => ("application/vnd.oasis.opendocument.text-web", "oasis-web-template"),
        169 => ("application/vnd.openxmlformats-officedocument.presentationml.presentation", "application-vnd.openxmlformats-officedocument.presentationml.presentation"),
        170 => ("application/vnd.openxmlformats-officedocument.presentationml.slideshow", "application-vnd.openxmlformats-officedocument.presentationml.slideshow"),
        171 => ("application/vnd.openxmlformats-officedocument.spreadsheetml.sheet", "application-vnd.openxmlformats-officedocument.spreadsheetml.sheet"),
        172 => ("application/vnd.openxmlformats-officedocument.wordprocessingml.document", "application-vnd.openxmlformats-officedocument.wordprocessingml.document"),
        173 => ("application/vnd.oziexplorer.plt", "application-vnd.oziexplorer.plt"),
        174 => ("application/vnd.oziexplorer.rte", "application-vnd.oziexplorer.rte"),
        175 => ("application/vnd.oziexplorer.wpt", "application-vnd.oziexplorer.wpt"),
        176 => ("application/vnd.rmaps.sqlite", "application-vnd.rmaps.sqlite"),
        177 => ("application/vnd.scribus", "application-vnd.scribus"),
        178 => ("application/vnd.shp", "application-vnd.shp"),
        179 => ("application/vnd.shx", "application-vnd.shx"),
        180 => ("application/vnd.snap", "application-vnd.snap"),
        181 => ("application/vnd.sqlite2", "application-vnd.sqlite2"),
        182 => ("application/vnd.sqlite3", "application-vnd.sqlite3"),
        183 => ("application/vnd.sqlite3", "qgis-sqlite"),
        184 => ("application/vnd.squashfs", "application-vnd.squashfs"),
        185 => ("application/vnd.tcpdump.pcap", "org.wireshark.Wireshark-mimetype"),
        186 => ("application/vnd.wolfram.cdf", "application-vnd.wolfram.cdf"),
        187 => ("application/vnd.wolfram.mathematica.package", "application-vnd.wolfram.mathematica.package"),
        188 => ("application/vnd.wolfram.nb", "application-vnd.wolfram.nb"),
        189 => ("application/vnd.wolfram.player", "application-vnd.wolfram.player"),
        190 => ("application/vnd.wolfram.wl", "application-vnd.wolfram.wl"),
        191 => ("application/vnd.wolfram.wls", "application-vnd.wolfram.wls"),
        192 => ("application/wasm", "application-wasm"),
        193 => ("application/x-adobe-indesign", "application-x-adobe-indesign"),
        194 => ("application/x-apple-diskimage", "application-x-apple-diskimage"),
        195 => ("application/x-applix-spreadsheet", "application-x-applix-spreadsheet"),
        196 => ("application/x-audacity-project", "application-x-audacity-project"),
        197 => ("application/x-audacity-project+sqlite3", "application-x-audacity-project+sqlite3"),
        198 => ("application/x-bibtex-text-file", "application-x-bibtex-text-file"),
        199 => ("application/x-bittorrent", "application-x-bittorrent"),
        200 => ("application/x-bitwig-clip", "application-x-bitwig-clip"),
        201 => ("application/x-bitwig-clip", "com.bitwig.BitwigStudio.application-bitwig-clip"),
        202 => ("application/x-bitwig-device", "application-x-bitwig-device"),
        203 => ("application/x-bitwig-device", "com.bitwig.BitwigStudio.application-bitwig-device"),
        204 => ("application/x-bitwig-extension", "com.bitwig.BitwigStudio.application-bitwig-extension"),
        205 => ("application/x-bitwig-impulse", "com.bitwig.BitwigStudio.application-bitwig-impulse"),
        206 => ("application/x-bitwig-modulator", "com.bitwig.BitwigStudio.application-bitwig-modulator"),
        207 => ("application/x-bitwig-module", "com.bitwig.BitwigStudio.application-bitwig-module"),
        208 => ("application/x-bitwig-package", "com.bitwig.BitwigStudio.application-bitwig-package"),
        209 => ("application/x-bitwig-preset", "com.bitwig.BitwigStudio.application-bitwig-preset"),
        210 => ("application/x-bitwig-project", "com.bitwig.BitwigStudio.application-bitwig-project"),
        211 => ("application/x-bitwig-remote-controls", "com.bitwig.BitwigStudio.application-bitwig-remote-controls"),
        212 => ("application/x-bitwig-studio", "application-x-bitwig-studio"),
        213 => ("application/x-blender", "application-x-blender"),
        214 => ("application/x-bps-patch", "application-x-bps-patch"),
        215 => ("application/x-bsdiff", "application-x-bsdiff"),
        216 => ("application/x-bzpostscript", "application-x-bzpostscript"),
        217 => ("application/x-cb7", "application-x-cb7"),
        218 => ("application/x-cba", "application-x-cba"),
        219 => ("application/x-cbr", "application-x-cbr"),
        220 => ("application/x-cbt", "application-x-cbt"),
        221 => ("application/x-cbz", "application-x-cbz"),
        222 => ("application/x-cd-image", "application-x-cd-image"),
        223 => ("application/x-clojure", "application-x-clojure"),
        224 => ("application/x-clojurescript", "application-x-clojurescript"),
        225 => ("application/x-com.bitwig-clip.BitwigStudio", "application-x-com.bitwig-clip.BitwigStudio"),
        226 => ("application/x-com.bitwig-device.BitwigStudio", "application-x-com.bitwig-device.BitwigStudio"),
        227 => ("application/x-com.bitwig.BitwigStudio", "application-x-com.bitwig.BitwigStudio"),
        228 => ("application/x-compressed-iso", "application-x-compressed-iso"),
        229 => ("application/x-cson", "application-x-cson"),
        230 => ("application/x-dbf", "application-x-dbf"),
        231 => ("application/x-deb", "application-x-deb"),
        232 => ("application/x-designer", "application-x-designer"),
        233 => ("application/x-e-theme", "application-x-e-theme"),
        234 => ("application/x-emerald-theme", "application-x-emerald-theme"),
        235 => ("application/x-fender-fenderstudio", "com.fender.studio.application-x.fender-fenderstudio"),
        236 => ("application/x-fender-jamtrack", "com.fender.studio.application-x.fender-jamtrack"),
        237 => ("application/x-fictionbook", "application-x-fictionbook"),
        238 => ("application/x-fictionbook+xml", "application-x-fictionbook+xml"),
        239 => ("application/x-firmware", "application-x-firmware"),
        240 => ("application/x-gdbm", "application-x-gdbm"),
        241 => ("application/x-gdscript", "application-x-gdscript"),
        242 => ("application/x-generic", "application-x-generic"),
        243 => ("application/x-generic", "package-x-generic"),
        244 => ("application/x-gettext-translation", "application-x-gettext-translation"),
        245 => ("application/x-godot-project", "application-x-godot-project"),
        246 => ("application/x-godot-resource", "application-x-godot-resource"),
        247 => ("application/x-godot-scene", "application-x-godot-scene"),
        248 => ("application/x-godot-shader", "application-x-godot-shader"),
        249 => ("application/x-gpx", "application-x-gpx"),
        250 => ("application/x-gpx+xml", "application-x-gpx+xml"),
        251 => ("application/x-gzpdf", "application-x-gzpdf"),
        252 => ("application/x-gzpostscript", "application-x-gzpostscript"),
        253 => ("application/x-hwp", "application-x-hwp"),
        254 => ("application/x-hwpx", "application-x-hwpx"),
        255 => ("application/x-ips-patch", "application-x-ips-patch"),
        256 => ("application/x-ipynb+json", "application-x-ipynb+json"),
        257 => ("application/x-iso", "application-x-iso"),
        258 => ("application/x-iso9600-appimage", "application-x-iso9600-appimage"),
        259 => ("application/x-jar", "application-x-jar"),
        260 => ("application/x-java", "application-x-java"),
        261 => ("application/x-java-applet", "application-x-java-applet"),
        262 => ("application/x-java-archive", "application-x-java-archive"),
        263 => ("application/x-javascript", "application-x-javascript"),
        264 => ("application/x-julia", "application-x-julia"),
        265 => ("application/x-kdenlive", "application-x-kdenlive"),
        266 => ("application/x-keepass", "application-x-keepass"),
        267 => ("application/x-keepass2", "application-x-keepass2"),
        268 => ("application/x-keepassx", "application-x-keepassx"),
        269 => ("application/x-keepassxc", "application-x-keepassxc"),
        270 => ("application/x-keepassxc", "org.keepassxc.KeePassXC-application-x-keepassxc"),
        271 => ("application/x-kexi-connectiondata", "application-x-kexi-connectiondata"),
        272 => ("application/x-kexiproject-sqlite2", "application-x-kexiproject-sqlite2"),
        273 => ("application/x-kexiproject-sqlite3", "application-x-kexiproject-sqlite3"),
        274 => ("application/x-kgetlist", "application-x-kgetlist"),
        275 => ("application/x-kpresenter", "application-x-kpresenter"),
        276 => ("application/x-krita", "application-x-krita"),
        277 => ("application/x-krita-assistant", "application-x-krita-assistant"),
        278 => ("application/x-krita-paintoppresent", "application-x-krita-paintoppresent"),
        279 => ("application/x-ktheme", "application-x-ktheme"),
        280 => ("application/x-lzpdf", "application-x-lzpdf"),
        281 => ("application/x-mobi8-ebook", "application-x-mobi8-ebook"),
        282 => ("application/x-mobipocket-ebook", "application-x-mobipocket-ebook"),
        283 => ("application/x-model", "application-x-model"),
        284 => ("application/x-msdownload", "application-x-msdownload"),
        285 => ("application/x-musescore4portable", "application-x-musescore4portable"),
        286 => ("application/x-musescore4portable+xml", "application-x-musescore4portable+xml"),
        287 => ("application/x-nero-burning-rom-image", "gnome-mime-application-x-nero-disk-image"),
        288 => ("application/x-nero-burning-rom-image", "nero-disk-image"),
        289 => ("application/x-ole-storage", "application-x-ole-storage"),
        290 => ("application/x-osm+xml", "application-x-osm+xml"),
        291 => ("application/x-pem-key", "application-x-pem-key"),
        292 => ("application/x-perl", "application-x-perl"),
        293 => ("application/x-photoshop", "application-x-photoshop"),
        294 => ("application/x-php", "application-x-php"),
        295 => ("application/x-pkcs12", "application-x-pkcs12"),
        296 => ("application/x-pkcs7", "application-x-pkcs7"),
        297 => ("application/x-pkcs7-certificates", "application-x-pkcs7-certificates"),
        298 => ("application/x-ptoptimizer-script", "application-x-ptoptimizer-script"),
        299 => ("application/x-python-bytecode", "application-x-python-bytecode"),
        300 => ("application/x-qgis", "qgis-qgs"),
        301 => ("application/x-qgis-layer", "qgis-qlr"),
        302 => ("application/x-qtractor-archive", "org.rncbc.qtractor.application-x-qtractor-archive"),
        303 => ("application/x-qtractor-session", "org.rncbc.qtractor.application-x-qtractor-session"),
        304 => ("application/x-qtractor-template", "org.rncbc.qtractor.application-x-qtractor-template"),
        305 => ("application/x-raw-disk-image", "application-x-raw-disk-image"),
        306 => ("application/x-raw-disk-image-xz-compressed", "application-x-raw-disk-image-xz-compressed"),
        307 => ("application/x-raw-floppy-disk-image", "application-x-raw-floppy-disk-image"),
        308 => ("application/x-rdata", "application-x-rdata"),
        309 => ("application/x-reaper", "cockos-reaper-document"),
        310 => ("application/x-reaper-backup", "cockos-reaper-backup"),
        311 => ("application/x-reaper-peak", "cockos-reaper-peak"),
        312 => ("application/x-reaper-template", "cockos-reaper-template2"),
        313 => ("application/x-reaper-template", "cockos-reaper-template"),
        314 => ("application/x-reaper-theme", "cockos-reaper-theme"),
        315 => ("application/x-rpm", "application-x-rpm"),
        316 => ("application/x-ruby", "application-x-ruby"),
        317 => ("application/x-shapefile", "qgis-shp"),
        318 => ("application/x-shellscript", "application-x-shellscript"),
        319 => ("application/x-source-rpm", "application-x-source-rpm"),
        320 => ("application/x-spectrum", "application-x-spectrum"),
        321 => ("application/x-spectrum-tzx", "application-x-spectrum-tzx"),
        322 => ("application/x-sqlite2", "application-x-sqlite2"),
        323 => ("application/x-sqlite3", "application-x-sqlite3"),
        324 => ("application/x-subrip", "application-x-subrip"),
        325 => ("application/x-theme", "application-x-theme"),
        326 => ("application/x-typescript", "application-x-typescript"),
        327 => ("application/x-virtualbox-hdd", "application-x-virtualbox-hdd"),
        328 => ("application/x-virtualbox-hdd", "virtualbox-hdd"),
        329 => ("application/x-virtualbox-ova", "application-x-virtualbox-ova"),
        330 => ("application/x-virtualbox-ova", "virtualbox-ova"),
        331 => ("application/x-virtualbox-ovf", "application-x-virtualbox-ovf"),
        332 => ("application/x-virtualbox-ovf", "virtualbox-ovf"),
        333 => ("application/x-virtualbox-vbox", "application-x-virtualbox-vbox"),
        334 => ("application/x-virtualbox-vbox", "virtualbox-vbox"),
        335 => ("application/x-virtualbox-vbox-extpack", "application-x-virtualbox-vbox-extpack"),
        336 => ("application/x-virtualbox-vbox-extpack", "virtualbox-vbox-extpack"),
        337 => ("application/x-virtualbox-vdi", "application-x-virtualbox-vdi"),
        338 => ("application/x-virtualbox-vdi", "virtualbox-vdi"),
        339 => ("application/x-virtualbox-vhd", "application-x-virtualbox-vhd"),
        340 => ("application/x-virtualbox-vhd", "virtualbox-vhd"),
        341 => ("application/x-virtualbox-vmdk", "application-x-virtualbox-vmdk"),
        342 => ("application/x-virtualbox-vmdk", "virtualbox-vmdk"),
        343 => ("application/x-windows-themepack", "application-x-windows-themepack"),
        344 => ("application/x-x509-ca-cert", "application-x-x509-ca-cert"),
        345 => ("application/x-x509-user-cert", "application-x-x509-user-cert"),
        346 => ("application/x-xopp", "application-x-xopp"),
        347 => ("application/x-xopp", "gnome-mime-application-x-xopp"),
        348 => ("application/x-xopt", "application-x-xopt"),
        349 => ("application/x-xopt", "gnome-mime-application-x-xopt"),
        350 => ("application/x-xzpdf", "application-x-xzpdf"),
        351 => ("application/x-yaml", "application-x-yaml"),
        352 => ("application/x-zim", "org.kiwix.desktop.x-zim_source"),
        353 => ("application/x-zip-compressed-fb2", "application-x-zip-compressed-fb2"),
        354 => ("application/xml", "application-xml"),
        355 => ("application/xslt+xml", "application-xslt+xml"),
        356 => ("application/yaml", "application-yaml"),
        357 => ("audio/x-dawproject", "com.bitwig.BitwigStudio.audio-x.dawproject"),
        358 => ("chemical/x-cache", "chemical-x-cache"),
        359 => ("image/vnd.adobe.photoshop", "image-vnd.adobe.photoshop"),
        360 => ("image/vnd.djvu", "image-vnd.djvu"),
        361 => ("image/vnd.djvu+multipage", "image-vnd.djvu+multipage"),
        362 => ("image/vnd.dxf", "qgis-dxf"),
        363 => ("image/x-djvu", "image-x-djvu"),
        364 => ("image/x-generic", "image-x-generic"),
        365 => ("image/x-krita", "image-x-krita"),
        366 => ("image/x-photoshop", "image-x-photoshop"),
        367 => ("inode/symlink", "inode-symlink"),
        368 => ("model/obj", "model-obj"),
        369 => ("model/stl", "model-stl"),
        370 => ("model/x-stl-binary", "model-x-stl-binary"),
        371 => ("model/x.stl-ascii", "model-x.stl-ascii"),
        372 => ("model/x.stl-binary", "model-x.stl-binary"),
        373 => ("multipart/encrypted", "multipart-encrypted"),
        374 => ("multipart/signed", "multipart-signed"),
        375 => ("text/arduino", "text-arduino"),
        376 => ("text/asciidoc", "text-asciidoc"),
        377 => ("text/coffeescript", "text-coffeescript"),
        378 => ("text/css", "text-css"),
        379 => ("text/csv", "text-csv"),
        380 => ("text/csv-schema", "text-csv-schema"),
        381 => ("text/fsharp", "text-fsharp"),
        382 => ("text/javascript", "text-javascript"),
        383 => ("text/json", "text-json"),
        384 => ("text/less", "text-less"),
        385 => ("text/markdown", "text-markdown"),
        386 => ("text/pureDataPatch", "text-pureDataPatch"),
        387 => ("text/rdf+xml", "text-rdf+xml"),
        388 => ("text/ruby", "text-ruby"),
        389 => ("text/rust", "text-rust"),
        390 => ("text/spreadsheet", "text-spreadsheet"),
        391 => ("text/tab-separated-values", "text-tab-separated-values"),
        392 => ("text/vtt", "text-vtt"),
        393 => ("text/x-R", "text-x-R"),
        394 => ("text/x-arduino", "text-x-arduino"),
        395 => ("text/x-ass", "text-x-ass"),
        396 => ("text/x-bibtex", "text-x-bibtex"),
        397 => ("text/x-c", "text-x-c"),
        398 => ("text/x-c++", "text-x-c++"),
        399 => ("text/x-c++hdr", "text-x-c++hdr"),
        400 => ("text/x-c++src", "text-x-c++src"),
        401 => ("text/x-chdr", "text-x-chdr"),
        402 => ("text/x-clojure", "text-x-clojure"),
        403 => ("text/x-clojurescript", "text-x-clojurescript"),
        404 => ("text/x-cmake", "text-x-cmake"),
        405 => ("text/x-cobol", "text-x-cobol"),
        406 => ("text/x-coffeescript", "text-x-coffeescript"),
        407 => ("text/x-common-lisp", "text-x-common-lisp"),
        408 => ("text/x-cpp", "text-x-cpp"),
        409 => ("text/x-cpphdr", "text-x-cpphdr"),
        410 => ("text/x-cppsrc", "text-x-cppsrc"),
        411 => ("text/x-csharp", "text-x-csharp"),
        412 => ("text/x-csrc", "text-x-csrc"),
        413 => ("text/x-css", "text-x-css"),
        414 => ("text/x-emacs-lisp", "text-x-emacs-lisp"),
        415 => ("text/x-fsharp", "text-x-fsharp"),
        416 => ("text/x-generic", "text-x-generic"),
        417 => ("text/x-gettext-translation", "text-x-gettext-translation"),
        418 => ("text/x-gettext-translation-template", "text-x-gettext-translation-template"),
        419 => ("text/x-go", "text-x-go"),
        420 => ("text/x-gradle", "text-x-gradle"),
        421 => ("text/x-gradle-kotlin", "text-x-gradle-kotlin"),
        422 => ("text/x-hex", "text-x-hex"),
        423 => ("text/x-java", "text-x-java"),
        424 => ("text/x-java-source", "text-x-java-source"),
        425 => ("text/x-javascript", "text-x-javascript"),
        426 => ("text/x-julia", "text-x-julia"),
        427 => ("text/x-kotlin", "text-x-kotlin"),
        428 => ("text/x-less", "text-x-less"),
        429 => ("text/x-log", "text-x-log"),
        430 => ("text/x-lua", "text-x-lua"),
        431 => ("text/x-makefile", "gnome-mime-text-x-makefile"),
        432 => ("text/x-makefile", "text-x-makefile"),
        433 => ("text/x-markdown", "text-x-markdown"),
        434 => ("text/x-maxima-out", "text-x-maxima-out"),
        435 => ("text/x-maximasession", "text-x-maximasession"),
        436 => ("text/x-meson", "text-x-meson"),
        437 => ("text/x-ocaml", "text-x-ocaml"),
        438 => ("text/x-octave", "text-x-octave"),
        439 => ("text/x-patch", "text-x-patch"),
        440 => ("text/x-php", "text-x-php"),
        441 => ("text/x-pkgbuild", "text-x-pkgbuild"),
        442 => ("text/x-preview", "text-x-preview"),
        443 => ("text/x-python", "text-x-python"),
        444 => ("text/x-python3", "text-x-python3"),
        445 => ("text/x-r", "text-x-r"),
        446 => ("text/x-r-markdown", "text-x-r-markdown"),
        447 => ("text/x-r-source", "text-x-r-source"),
        448 => ("text/x-ruby", "text-x-ruby"),
        449 => ("text/x-sass", "text-x-sass"),
        450 => ("text/x-script", "text-x-script"),
        451 => ("text/x-scss", "text-x-scss"),
        452 => ("text/x-sql", "text-x-sql"),
        453 => ("text/x-ssa", "text-x-ssa"),
        454 => ("text/x-stex", "text-x-stex"),
        455 => ("text/x-tex", "text-x-tex"),
        456 => ("text/x-texinfo", "text-x-texinfo"),
        457 => ("text/x-typescript", "text-x-typescript"),
        458 => ("text/x-typst", "text-x-typst"),
        459 => ("text/x-vala", "text-x-vala"),
        460 => ("text/x-yaml", "text-x-yaml"),
        461 => ("text/x-zig", "text-x-zig"),
        462 => ("text/xml", "text-xml"),
        463 => ("text/yaml", "text-yaml"),
        464 => ("video/x-generic", "video-x-generic"),
        465 => ("x-content/ebook-reader", "x-content-ebook-reader"),
        _ => ("", ""),
    }
}

proof fn lemma_mime_keys_adjacent_0(i: usize)
    requires
        0 <= i < 40,
    ensures
        lex_order(mime_key(i), mime_key((i + 1) as usize)) <= 0,
{
    match i {
        0 => {
            let a = "application/affinity"@;
            let b = "application/affinity-template"@;
            reveal_strlit("application/affinity");
            reveal_strlit("application/affinity-template");
            assert(a.take(20) =~= b.take(20));
            lemma_lex_order_common_prefix(a, b, 20);
        },
        1 => {
            let a = "application/affinity-template"@;
            let b = "application/apk"@;
            reveal_strlit("application/affinity-template");
            reveal_strlit("application/apk");
            assert(a.take(13) =~= b.take(13));
            lemma_lex_order_common_prefix(a, b, 13);
        },
        2 => {
            let a = "application/apk"@;
            let b = "application/atom+xml"@;
            reveal_strlit("application/apk");
            reveal_strlit("application/atom+xml");
            assert(a.take(13) =~= b.take(13));
            lemma_lex_order_common_prefix(a, b, 13);
        },
        3 => {
            let a = "application/atom+xml"@;
            let b = "application/bitwig-clip"@;
            reveal_strlit("application/atom+xml");
            reveal_strlit("application/bitwig-clip");
            assert(a.take(12) =~= b.take(12));
            lemma_lex_order_common_prefix(a, b, 12);
        },
        4 => {
            let a = "application/bitwig-clip"@;
            let b = "application/bitwig-device"@;
            reveal_strlit("application/bitwig-clip");
            reveal_strlit("application/bitwig-device");
            assert(a.take(19) =~= b.take(19));
            lemma_lex_order_common_prefix(a, b, 19);
        },
        5 => {
            let a = "application/bitwig-device"@;
            let b = "application/epub+zip"@;
            reveal_strlit("application/bitwig-device");
            reveal_strlit("application/epub+zip");
            assert(a.take(12) =~= b.take(12));
            lemma_lex_order_common_prefix(a, b, 12);
        },
        6 => {
            let a = "application/epub+zip"@;
            let b = "application/geo+json"@;
            reveal_strlit("application/epub+zip");
            reveal_strlit("application/geo+json");
            assert(a.take(12) =~= b.take(12));
            lemma_lex_order_common_prefix(a, b, 12);
        },
        7 => {
            let a = "application/geo+json"@;
            let b = "application/gml+xml"@;
            reveal_strlit("application/geo+json");
            reveal_strlit("application/gml+xml");
            assert(a.take(13) =~= b.take(13));
            lemma_lex_order_common_prefix(a, b, 13);
        },
        8 => {
            let a = "application/gml+xml"@;
            let b = "application/gml+xml"@;
            reveal_strlit("application/gml+xml");
            reveal_strlit("application/gml+xml");
            lemma_lex_order_basics(a, b);
        },
        9 => {
            let a = "application/gml+xml"@;
            let b = "application/gpx"@;
            reveal_strlit("application/gml+xml");
            reveal_strlit("application/gpx");
            assert(a.take(13) =~= b.take(13));
            lemma_lex_order_common_prefix(a, b, 13);
        },
        10 => {
            let a = "application/gpx"@;
            let b = "application/gpx+xml"@;
            reveal_strlit("application/gpx");
            reveal_strlit("application/gpx+xml");
            assert(a.take(15) =~= b.take(15));
            lemma_lex_order_common_prefix(a, b, 15);
        },
        11 => {
            let a = "application/gpx+xml"@;
            let b = "application/hwp"@;
            reveal_strlit("application/gpx+xml");
            reveal_strlit("application/hwp");
            assert(a.take(12) =~= b.take(12));
            lemma_lex_order_common_prefix(a, b, 12);
        },
        12 => {
            let a = "application/hwp"@;
            let b = "application/hwpx"@;
            reveal_strlit("application/hwp");
            reveal_strlit("application/hwpx");
            assert(a.take(15) =~= b.take(15));
            lemma_lex_order_common_prefix(a, b, 15);
        },
        13 => {
            let a = "application/hwpx"@;
            let b = "application/illustrator"@;
            reveal_strlit("application/hwpx");
            reveal_strlit("application/illustrator");
            assert(a.take(12) =~= b.take(12));
            lemma_lex_order_common_prefix(a, b, 12);
        },
        14 => {
            let a = "application/illustrator"@;
            let b = "application/java"@;
            reveal_strlit("application/illustrator");
            reveal_strlit("application/java");
            assert(a.take(12) =~= b.take(12));
            lemma_lex_order_common_prefix(a, b, 12);
        },
        15 => {
            let a = "application/java"@;
            let b = "application/javascript"@;
            reveal_strlit("application/java");
            reveal_strlit("application/javascript");
            assert(a.take(16) =~= b.take(16));
            lemma_lex_order_common_prefix(a, b, 16);
        },
        16 => {
            let a = "application/javascript"@;
            let b = "application/json"@;
            reveal_strlit("application/javascript");
            reveal_strlit("application/json");
            assert(a.take(13) =~= b.take(13));
            lemma_lex_order_common_prefix(a, b, 13);
        },
        17 => {
            let a = "application/json"@;
            let b = "application/loc+xml"@;
            reveal_strlit("application/json");
            reveal_strlit("application/loc+xml");
            assert(a.take(12) =~= b.take(12));
            lemma_lex_order_common_prefix(a, b, 12);
        },
        18 => {
            let a = "application/loc+xml"@;
            let b = "application/mathematica"@;
            reveal_strlit("application/loc+xml");
            reveal_strlit("application/mathematica");
            assert(a.take(12) =~= b.take(12));
            lemma_lex_order_common_prefix(a, b, 12);
        },
        19 => {
            let a = "application/mathematica"@;
            let b = "application/mathematicaplayer"@;
            reveal_strlit("application/mathematica");
            reveal_strlit("application/mathematicaplayer");
            assert(a.take(23) =~= b.take(23));
            lemma_lex_order_common_prefix(a, b, 23);
        },
        20 => {
            let a = "application/mathematicaplayer"@;
            let b = "application/mbox"@;
            reveal_strlit("application/mathematicaplayer");
            reveal_strlit("application/mbox");
            assert(a.take(13) =~= b.take(13));
            lemma_lex_order_common_prefix(a, b, 13);
        },
        21 => {
            let a = "application/mbox"@;
            let b = "application/metalink+xml"@;
            reveal_strlit("application/mbox");
            reveal_strlit("application/metalink+xml");
            assert(a.take(13) =~= b.take(13));
            lemma_lex_order_common_prefix(a, b, 13);
        },
        22 => {
            let a = "application/metalink+xml"@;
            let b = "application/metalink4+xml"@;
            reveal_strlit("application/metalink+xml");
            reveal_strlit("application/metalink4+xml");
            assert(a.take(20) =~= b.take(20));
            lemma_lex_order_common_prefix(a, b, 20);
        },
        23 => {
            let a = "application/metalink4+xml"@;
            let b = "application/octet-stream"@;
            reveal_strlit("application/metalink4+xml");
            reveal_strlit("application/octet-stream");
            assert(a.take(12) =~= b.take(12));
            lemma_lex_order_common_prefix(a, b, 12);
        },
        24 => {
            let a = "application/octet-stream"@;
            let b = "application/owl+xml"@;
            reveal_strlit("application/octet-stream");
            reveal_strlit("application/owl+xml");
            assert(a.take(13) =~= b.take(13));
            lemma_lex_order_common_prefix(a, b, 13);
        },
        25 => {
            let a = "application/owl+xml"@;
            let b = "application/pdf"@;
            reveal_strlit("application/owl+xml");
            reveal_strlit("application/pdf");
            assert(a.take(12) =~= b.take(12));
            lemma_lex_order_common_prefix(a, b, 12);
        },
        26 => {
            let a = "application/pdf"@;
            let b = "application/pgp"@;
            reveal_strlit("application/pdf");
            reveal_strlit("application/pgp");
            assert(a.take(13) =~= b.take(13));
            lemma_lex_order_common_prefix(a, b, 13);
        },
        27 => {
            let a = "application/pgp"@;
            let b = "application/pgp-encrypted"@;
            reveal_strlit("application/pgp");
            reveal_strlit("application/pgp-encrypted");
            assert(a.take(15) =~= b.take(15));
            lemma_lex_order_common_prefix(a, b, 15);
        },
        28 => {
            let a = "application/pgp-encrypted"@;
            let b = "application/pgp-keys"@;
            reveal_strlit("application/pgp-encrypted");
            reveal_strlit("application/pgp-keys");
            assert(a.take(16) =~= b.take(16));
            lemma_lex_order_common_prefix(a, b, 16);
        },
        29 => {
            let a = "application/pgp-keys"@;
            let b = "application/pgp-signature"@;
            reveal_strlit("application/pgp-keys");
            reveal_strlit("application/pgp-signature");
            assert(a.take(16) =~= b.take(16));
            lemma_lex_order_common_prefix(a, b, 16);
        },
        30 => {
            let a = "application/pgp-signature"@;
            let b = "application/photoshop"@;
            reveal_strlit("application/pgp-signature");
            reveal_strlit("application/photoshop");
            assert(a.take(13) =~= b.take(13));
            lemma_lex_order_common_prefix(a, b, 13);
        },
        31 => {
            let a = "application/photoshop"@;
            let b = "application/pkcs10"@;
            reveal_strlit("application/photoshop");
            reveal_strlit("application/pkcs10");
            assert(a.take(13) =~= b.take(13));
            lemma_lex_order_common_prefix(a, b, 13);
        },
        32 => {
            let a = "application/pkcs10"@;
            let b = "application/pkcs12"@;
            reveal_strlit("application/pkcs10");
            reveal_strlit("application/pkcs12");
            assert(a.take(17) =~= b.take(17));
            lemma_lex_order_common_prefix(a, b, 17);
        },
        33 => {
            let a = "application/pkcs12"@;
            let b = "application/pkcs7-mime"@;
            reveal_strlit("application/pkcs12");
            reveal_strlit("application/pkcs7-mime");
            assert(a.take(16) =~= b.take(16));
            lemma_lex_order_common_prefix(a, b, 16);
        },
        34 => {
            let a = "application/pkcs7-mime"@;
            let b = "application/pkcs7-signature"@;
            reveal_strlit("application/pkcs7-mime");
            reveal_strlit("application/pkcs7-signature");
            assert(a.take(18) =~= b.take(18));
            lemma_lex_order_common_prefix(a, b, 18);
        },
        35 => {
            let a = "application/pkcs7-signature"@;
            let b = "application/pkcs8"@;
            reveal_strlit("application/pkcs7-signature");
            reveal_strlit("application/pkcs8");
            assert(a.take(16) =~= b.take(16));
            lemma_lex_order_common_prefix(a, b, 16);
        },
        36 => {
            let a = "application/pkcs8"@;
            let b = "application/pkix-cert"@;
            reveal_strlit("application/pkcs8");
            reveal_strlit("application/pkix-cert");
            assert(a.take(14) =~= b.take(14));
            lemma_lex_order_common_prefix(a, b, 14);
        },
        37 => {
            let a = "application/pkix-cert"@;
            let b = "application/postscript"@;
            reveal_strlit("application/pkix-cert");
            reveal_strlit("application/postscript");
            assert(a.take(13) =~= b.take(13));
            lemma_lex_order_common_prefix(a, b, 13);
        },
        38 => {
            let a = "application/postscript"@;
            let b = "application/rss+xml"@;
            reveal_strlit("application/postscript");
            reveal_strlit("application/rss+xml");
            assert(a.take(12) =~= b.take(12));
            lemma_lex_order_common_prefix(a, b, 12);
        },
        39 => {
            let a = "application/rss+xml"@;
            let b = "application/schema+json"@;
            reveal_strlit("application/rss+xml");
            reveal_strlit("application/schema+json");
            assert(a.take(12) =~= b.take(12));
            lemma_lex_order_common_prefix(a, b, 12);
        },
        _ => {},
    }
}

proof fn lemma_mime_keys_adjacent_40(i: usize)
    requires
        40 <= i < 80,
    ensures
        lex_order(mime_key(i), mime_key((i + 1) as usize)) <= 0,
{
    match i {
        40 => {
            let a = "application/schema+json"@;
            let b = "application/slf+xml"@;
            reveal_strlit("application/schema+json");
            reveal_strlit("application/slf+xml");
            assert(a.take(13) =~= b.take(13));
            lemma_lex_order_common_prefix(a, b, 13);
        },
        41 => {
            let a = "application/slf+xml"@;
            let b = "application/sql"@;
            reveal_strlit("application/slf+xml");
            reveal_strlit("application/sql");
            assert(a.take(13) =~= b.take(13));
            lemma_lex_order_common_prefix(a, b, 13);
        },
        42 => {
            let a = "application/sql"@;
            let b = "application/tcx+xml"@;
            reveal_strlit("application/sql");
            reveal_strlit("application/tcx+xml");
            assert(a.take(12) =~= b.take(12));
            lemma_lex_order_common_prefix(a, b, 12);
        },
        43 => {
            let a = "application/tcx+xml"@;
            let b = "application/toml"@;
            reveal_strlit("application/tcx+xml");
            reveal_strlit("application/toml");
            assert(a.take(13) =~= b.take(13));
            lemma_lex_order_common_prefix(a, b, 13);
        },
        44 => {
            let a = "application/toml"@;
            let b = "application/typescript"@;
            reveal_strlit("application/toml");
            reveal_strlit("application/typescript");
            assert(a.take(13) =~= b.take(13));
            lemma_lex_order_common_prefix(a, b, 13);
        },
        45 => {
            let a = "application/typescript"@;
            let b = "application/vnd-google-earth-kml"@;
            reveal_strlit("application/typescript");
            reveal_strlit("application/vnd-google-earth-kml");
            assert(a.take(12) =~= b.take(12));
            lemma_lex_order_common_prefix(a, b, 12);
        },
        46 => {
            let a = "application/vnd-google-earth-kml"@;
            let b = "application/vnd.adobe.aftereffects.project"@;
            reveal_strlit("application/vnd-google-earth-kml");
            reveal_strlit("application/vnd.adobe.aftereffects.project");
            assert(a.take(15) =~= b.take(15));
            lemma_lex_order_common_prefix(a, b, 15);
        },
        47 => {
            let a = "application/vnd.adobe.aftereffects.project"@;
            let b = "application/vnd.adobe.aftereffects.template"@;
            reveal_strlit("application/vnd.adobe.aftereffects.project");
            reveal_strlit("application/vnd.adobe.aftereffects.template");
            assert(a.take(35) =~= b.take(35));
            lemma_lex_order_common_prefix(a, b, 35);
        },
        48 => {
            let a = "application/vnd.adobe.aftereffects.template"@;
            let b = "application/vnd.adobe.xd"@;
            reveal_strlit("application/vnd.adobe.aftereffects.template");
            reveal_strlit("application/vnd.adobe.xd");
            assert(a.take(22) =~= b.take(22));
            lemma_lex_order_common_prefix(a, b, 22);
        },
        49 => {
            let a = "application/vnd.adobe.xd"@;
            let b = "application/vnd.amazon.mobi8-ebook"@;
            reveal_strlit("application/vnd.adobe.xd");
            reveal_strlit("application/vnd.amazon.mobi8-ebook");
            assert(a.take(17) =~= b.take(17));
            lemma_lex_order_common_prefix(a, b, 17);
        },
        50 => {
            let a = "application/vnd.amazon.mobi8-ebook"@;
            let b = "application/vnd.android.package-archive"@;
            reveal_strlit("application/vnd.amazon.mobi8-ebook");
            reveal_strlit("application/vnd.android.package-archive");
            assert(a.take(17) =~= b.take(17));
            lemma_lex_order_common_prefix(a, b, 17);
        },
        51 => {
            let a = "application/vnd.android.package-archive"@;
            let b = "application/vnd.android.package-archive"@;
            reveal_strlit("application/vnd.android.package-archive");
            reveal_strlit("application/vnd.android.package-archive");
            lemma_lex_order_basics(a, b);
        },
        52 => {
            let a = "application/vnd.android.package-archive"@;
            let b = "application/vnd.ant.fit"@;
            reveal_strlit("application/vnd.android.package-archive");
            reveal_strlit("application/vnd.ant.fit");
            assert(a.take(18) =~= b.take(18));
            lemma_lex_order_common_prefix(a, b, 18);
        },
        53 => {
            let a = "application/vnd.ant.fit"@;
            let b = "application/vnd.appimage"@;
            reveal_strlit("application/vnd.ant.fit");
            reveal_strlit("application/vnd.appimage");
            assert(a.take(17) =~= b.take(17));
            lemma_lex_order_common_prefix(a, b, 17);
        },
        54 => {
            let a = "application/vnd.appimage"@;
            let b = "application/vnd.coffeescript"@;
            reveal_strlit("application/vnd.appimage");
            reveal_strlit("application/vnd.coffeescript");
            assert(a.take(16) =~= b.take(16));
            lemma_lex_order_common_prefix(a, b, 16);
        },
        55 => {
            let a = "application/vnd.coffeescript"@;
            let b = "application/vnd.comicbook+zip"@;
            reveal_strlit("application/vnd.coffeescript");
            reveal_strlit("application/vnd.comicbook+zip");
            assert(a.take(18) =~= b.take(18));
            lemma_lex_order_common_prefix(a, b, 18);
        },
        56 => {
            let a = "application/vnd.comicbook+zip"@;
            let b = "application/vnd.comicbook-rar"@;
            reveal_strlit("application/vnd.comicbook+zip");
            reveal_strlit("application/vnd.comicbook-rar");
            assert(a.take(25) =~= b.take(25));
            lemma_lex_order_common_prefix(a, b, 25);
        },
        57 => {
            let a = "application/vnd.comicbook-rar"@;
            let b = "application/vnd.debian.binary-package"@;
            reveal_strlit("application/vnd.comicbook-rar");
            reveal_strlit("application/vnd.debian.binary-package");
            assert(a.take(16) =~= b.take(16));
            lemma_lex_order_common_prefix(a, b, 16);
        },
        58 => {
            let a = "application/vnd.debian.binary-package"@;
            let b = "application/vnd.efi.img"@;
            reveal_strlit("application/vnd.debian.binary-package");
            reveal_strlit("application/vnd.efi.img");
            assert(a.take(16) =~= b.take(16));
            lemma_lex_order_common_prefix(a, b, 16);
        },
        59 => {
            let a = "application/vnd.efi.img"@;
            let b = "application/vnd.efi.iso"@;
            reveal_strlit("application/vnd.efi.img");
            reveal_strlit("application/vnd.efi.iso");
            assert(a.take(21) =~= b.take(21));
            lemma_lex_order_common_prefix(a, b, 21);
        },
        60 => {
            let a = "application/vnd.efi.iso"@;
            let b = "application/vnd.fai.igc"@;
            reveal_strlit("application/vnd.efi.iso");
            reveal_strlit("application/vnd.fai.igc");
            assert(a.take(16) =~= b.take(16));
            lemma_lex_order_common_prefix(a, b, 16);
        },
        61 => {
            let a = "application/vnd.fai.igc"@;
            let b = "application/vnd.flatpak"@;
            reveal_strlit("application/vnd.fai.igc");
            reveal_strlit("application/vnd.flatpak");
            assert(a.take(17) =~= b.take(17));
            lemma_lex_order_common_prefix(a, b, 17);
        },
        62 => {
            let a = "application/vnd.flatpak"@;
            let b = "application/vnd.flatpak.ref"@;
            reveal_strlit("application/vnd.flatpak");
            reveal_strlit("application/vnd.flatpak.ref");
            assert(a.take(23) =~= b.take(23));
            lemma_lex_order_common_prefix(a, b, 23);
        },
        63 => {
            let a = "application/vnd.flatpak.ref"@;
            let b = "application/vnd.geo+json"@;
            reveal_strlit("application/vnd.flatpak.ref");
            reveal_strlit("application/vnd.geo+json");
            assert(a.take(16) =~= b.take(16));
            lemma_lex_order_common_prefix(a, b, 16);
        },
        64 => {
            let a = "application/vnd.geo+json"@;
            let b = "application/vnd.google-apps.document"@;
            reveal_strlit("application/vnd.geo+json");
            reveal_strlit("application/vnd.google-apps.document");
            assert(a.take(17) =~= b.take(17));
            lemma_lex_order_common_prefix(a, b, 17);
        },
        65 => {
            let a = "application/vnd.google-apps.document"@;
            let b = "application/vnd.google-apps.document"@;
            reveal_strlit("application/vnd.google-apps.document");
            reveal_strlit("application/vnd.google-apps.document");
            lemma_lex_order_basics(a, b);
        },
        66 => {
            let a = "application/vnd.google-apps.document"@;
            let b = "application/vnd.google-apps.drawing"@;
            reveal_strlit("application/vnd.google-apps.document");
            reveal_strlit("application/vnd.google-apps.drawing");
            assert(a.take(29) =~= b.take(29));
            lemma_lex_order_common_prefix(a, b, 29);
        },
        67 => {
            let a = "application/vnd.google-apps.drawing"@;
            let b = "application/vnd.google-apps.drawing"@;
            reveal_strlit("application/vnd.google-apps.drawing");
            reveal_strlit("application/vnd.google-apps.drawing");
            lemma_lex_order_basics(a, b);
        },
        68 => {
            let a = "application/vnd.google-apps.drawing"@;
            let b = "application/vnd.google-apps.form"@;
            reveal_strlit("application/vnd.google-apps.drawing");
            reveal_strlit("application/vnd.google-apps.form");
            assert(a.take(28) =~= b.take(28));
            lemma_lex_order_common_prefix(a, b, 28);
        },
        69 => {
            let a = "application/vnd.google-apps.form"@;
            let b = "application/vnd.google-apps.fusiontable"@;
            reveal_strlit("application/vnd.google-apps.form");
            reveal_strlit("application/vnd.google-apps.fusiontable");
            assert(a.take(29) =~= b.take(29));
            lemma_lex_order_common_prefix(a, b, 29);
        },
        70 => {
            let a = "application/vnd.google-apps.fusiontable"@;
            let b = "application/vnd.google-apps.fusiontable"@;
            reveal_strlit("application/vnd.google-apps.fusiontable");
            reveal_strlit("application/vnd.google-apps.fusiontable");
            lemma_lex_order_basics(a, b);
        },
        71 => {
            let a = "application/vnd.google-apps.fusiontable"@;
            let b = "application/vnd.google-apps.map"@;
            reveal_strlit("application/vnd.google-apps.fusiontable");
            reveal_strlit("application/vnd.google-apps.map");
            assert(a.take(28) =~= b.take(28));
            lemma_lex_order_common_prefix(a, b, 28);
        },
        72 => {
            let a = "application/vnd.google-apps.map"@;
            let b = "application/vnd.google-apps.presentation"@;
            reveal_strlit("application/vnd.google-apps.map");
            reveal_strlit("application/vnd.google-apps.presentation");
            assert(a.take(28) =~= b.take(28));
            lemma_lex_order_common_prefix(a, b, 28);
        },
        73 => {
            let a = "application/vnd.google-apps.presentation"@;
            let b = "application/vnd.google-apps.presentation"@;
            reveal_strlit("application/vnd.google-apps.presentation");
            reveal_strlit("application/vnd.google-apps.presentation");
            lemma_lex_order_basics(a, b);
        },
        74 => {
            let a = "application/vnd.google-apps.presentation"@;
            let b = "application/vnd.google-apps.site"@;
            reveal_strlit("application/vnd.google-apps.presentation");
            reveal_strlit("application/vnd.google-apps.site");
            assert(a.take(28) =~= b.take(28));
            lemma_lex_order_common_prefix(a, b, 28);
        },
        75 => {
            let a = "application/vnd.google-apps.site"@;
            let b = "application/vnd.google-apps.spreadsheet"@;
            reveal_strlit("application/vnd.google-apps.site");
            reveal_strlit("application/vnd.google-apps.spreadsheet");
            assert(a.take(29) =~= b.take(29));
            lemma_lex_order_common_prefix(a, b, 29);
        },
        76 => {
            let a = "application/vnd.google-apps.spreadsheet"@;
            let b = "application/vnd.google-earth.kml"@;
            reveal_strlit("application/vnd.google-apps.spreadsheet");
            reveal_strlit("application/vnd.google-earth.kml");
            assert(a.take(23) =~= b.take(23));
            lemma_lex_order_common_prefix(a, b, 23);
        },
        77 => {
            let a = "application/vnd.google-earth.kml"@;
            let b = "application/vnd.google-earth.kml+xml"@;
            reveal_strlit("application/vnd.google-earth.kml");
            reveal_strlit("application/vnd.google-earth.kml+xml");
            assert(a.take(32) =~= b.take(32));
            lemma_lex_order_common_prefix(a, b, 32);
        },
        78 => {
            let a = "application/vnd.google-earth.kml+xml"@;
            let b = "application/vnd.google-earth.kmz"@;
            reveal_strlit("application/vnd.google-earth.kml+xml");
            reveal_strlit("application/vnd.google-earth.kmz");
            assert(a.take(31) =~= b.take(31));
            lemma_lex_order_common_prefix(a, b, 31);
        },
        79 => {
            let a = "application/vnd.google-earth.kmz"@;
            let b = "application/vnd.iccprofile"@;
            reveal_strlit("application/vnd.google-earth.kmz");
            reveal_strlit("application/vnd.iccprofile");
            assert(a.take(16) =~= b.take(16));
            lemma_lex_order_common_prefix(a, b, 16);
        },
        _ => {},
    }
}

proof fn lemma_mime_keys_adjacent_80(i: usize)
    requires
        80 <= i < 120,
    ensures
        lex_order(mime_key(i), mime_key((i + 1) as usize)) <= 0,
{
    match i {
        80 => {
            let a = "application/vnd.iccprofile"@;
            let b = "application/vnd.insync.link.drive.doc"@;
            reveal_strlit("application/vnd.iccprofile");
            reveal_strlit("application/vnd.insync.link.drive.doc");
            assert(a.take(17) =~= b.take(17));
            lemma_lex_order_common_prefix(a, b, 17);
        },
        81 => {
            let a = "application/vnd.insync.link.drive.doc"@;
            let b = "application/vnd.insync.link.drive.draw"@;
            reveal_strlit("application/vnd.insync.link.drive.doc");
            reveal_strlit("application/vnd.insync.link.drive.draw");
            assert(a.take(35) =~= b.take(35));
            lemma_lex_order_common_prefix(a, b, 35);
        },
        82 => {
            let a = "application/vnd.insync.link.drive.draw"@;
            let b = "application/vnd.insync.link.drive.form"@;
            reveal_strlit("application/vnd.insync.link.drive.draw");
            reveal_strlit("application/vnd.insync.link.drive.form");
            assert(a.take(34) =~= b.take(34));
            lemma_lex_order_common_prefix(a, b, 34);
        },
        83 => {
            let a = "application/vnd.insync.link.drive.form"@;
            let b = "application/vnd.insync.link.drive.slides"@;
            reveal_strlit("application/vnd.insync.link.drive.form");
            reveal_strlit("application/vnd.insync.link.drive.slides");
            assert(a.take(34) =~= b.take(34));
            lemma_lex_order_common_prefix(a, b, 34);
        },
        84 => {
            let a = "application/vnd.insync.link.drive.slides"@;
            let b = "application/vnd.insync.link.drive.table"@;
            reveal_strlit("application/vnd.insync.link.drive.slides");
            reveal_strlit("application/vnd.insync.link.drive.table");
            assert(a.take(34) =~= b.take(34));
            lemma_lex_order_common_prefix(a, b, 34);
        },
        85 => {
            let a = "application/vnd.insync.link.drive.table"@;
            let b = "application/vnd.leocad"@;
            reveal_strlit("application/vnd.insync.link.drive.table");
            reveal_strlit("application/vnd.leocad");
            assert(a.take(16) =~= b.take(16));
            lemma_lex_order_common_prefix(a, b, 16);
        },
        86 => {
            let a = "application/vnd.leocad"@;
            let b = "application/vnd.ms-access"@;
            reveal_strlit("application/vnd.leocad");
            reveal_strlit("application/vnd.ms-access");
            assert(a.take(16) =~= b.take(16));
            lemma_lex_order_common_prefix(a, b, 16);
        },
        87 => {
            let a = "application/vnd.ms-access"@;
            let b = "application/vnd.ms-access"@;
            reveal_strlit("application/vnd.ms-access");
            reveal_strlit("application/vnd.ms-access");
            lemma_lex_order_basics(a, b);
        },
        88 => {
            let a = "application/vnd.ms-access"@;
            let b = "application/vnd.ms-excel"@;
            reveal_strlit("application/vnd.ms-access");
            reveal_strlit("application/vnd.ms-excel");
            assert(a.take(19) =~= b.take(19));
            lemma_lex_order_common_prefix(a, b, 19);
        },
        89 => {
            let a = "application/vnd.ms-excel"@;
            let b = "application/vnd.ms-excel.spreadsheet.macroenabled.12"@;
            reveal_strlit("application/vnd.ms-excel");
            reveal_strlit("application/vnd.ms-excel.spreadsheet.macroenabled.12");
            assert(a.take(24) =~= b.take(24));
            lemma_lex_order_common_prefix(a, b, 24);
        },
        90 => {
            let a = "application/vnd.ms-excel.spreadsheet.macroenabled.12"@;
            let b = "application/vnd.ms-powerpoint"@;
            reveal_strlit("application/vnd.ms-excel.spreadsheet.macroenabled.12");
            reveal_strlit("application/vnd.ms-powerpoint");
            assert(a.take(19) =~= b.take(19));
            lemma_lex_order_common_prefix(a, b, 19);
        },
        91 => {
            let a = "application/vnd.ms-powerpoint"@;
            let b = "application/vnd.ms-powerpoint.presentation.macroEnabled.12"@;
            reveal_strlit("application/vnd.ms-powerpoint");
            reveal_strlit("application/vnd.ms-powerpoint.presentation.macroEnabled.12");
            assert(a.take(29) =~= b.take(29));
            lemma_lex_order_common_prefix(a, b, 29);
        },
        92 => {
            let a = "application/vnd.ms-powerpoint.presentation.macroEnabled.12"@;
            let b = "application/vnd.ms-word"@;
            reveal_strlit("application/vnd.ms-powerpoint.presentation.macroEnabled.12");
            reveal_strlit("application/vnd.ms-word");
            assert(a.take(19) =~= b.take(19));
            lemma_lex_order_common_prefix(a, b, 19);
        },
        93 => {
            let a = "application/vnd.ms-word"@;
            let b = "application/vnd.ms-word.document.macroenabled.12"@;
            reveal_strlit("application/vnd.ms-word");
            reveal_strlit("application/vnd.ms-word.document.macroenabled.12");
            assert(a.take(23) =~= b.take(23));
            lemma_lex_order_common_prefix(a, b, 23);
        },
        94 => {
            let a = "application/vnd.ms-word.document.macroenabled.12"@;
            let b = "application/vnd.nmea.nmea"@;
            reveal_strlit("application/vnd.ms-word.document.macroenabled.12");
            reveal_strlit("application/vnd.nmea.nmea");
            assert(a.take(16) =~= b.take(16));
            lemma_lex_order_common_prefix(a, b, 16);
        },
        95 => {
            let a = "application/vnd.nmea.nmea"@;
            let b = "application/vnd.oasis.opendocument.database"@;
            reveal_strlit("application/vnd.nmea.nmea");
            reveal_strlit("application/vnd.oasis.opendocument.database");
            assert(a.take(16) =~= b.take(16));
            lemma_lex_order_common_prefix(a, b, 16);
        },
        96 => {
            let a = "application/vnd.oasis.opendocument.database"@;
            let b = "application/vnd.oasis.opendocument.database"@;
            reveal_strlit("application/vnd.oasis.opendocument.database");
            reveal_strlit("application/vnd.oasis.opendocument.database");
            lemma_lex_order_basics(a, b);
        },
        97 => {
            let a = "application/vnd.oasis.opendocument.database"@;
            let b = "application/vnd.oasis.opendocument.database"@;
            reveal_strlit("application/vnd.oasis.opendocument.database");
            reveal_strlit("application/vnd.oasis.opendocument.database");
            lemma_lex_order_basics(a, b);
        },
        98 => {
            let a = "application/vnd.oasis.opendocument.database"@;
            let b = "application/vnd.oasis.opendocument.database"@;
            reveal_strlit("application/vnd.oasis.opendocument.database");
            reveal_strlit("application/vnd.oasis.opendocument.database");
            lemma_lex_order_basics(a, b);
        },
        99 => {
            let a = "application/vnd.oasis.opendocument.database"@;
            let b = "application/vnd.oasis.opendocument.database"@;
            reveal_strlit("application/vnd.oasis.opendocument.database");
            reveal_strlit("application/vnd.oasis.opendocument.database");
            lemma_lex_order_basics(a, b);
        },
        100 => {
            let a = "application/vnd.oasis.opendocument.database"@;
            let b = "application/vnd.oasis.opendocument.database"@;
            reveal_strlit("application/vnd.oasis.opendocument.database");
            reveal_strlit("application/vnd.oasis.opendocument.database");
            lemma_lex_order_basics(a, b);
        },
        101 => {
            let a = "application/vnd.oasis.opendocument.database"@;
            let b = "application/vnd.oasis.opendocument.database-template"@;
            reveal_strlit("application/vnd.oasis.opendocument.database");
            reveal_strlit("application/vnd.oasis.opendocument.database-template");
            assert(a.take(43) =~= b.take(43));
            lemma_lex_order_common_prefix(a, b, 43);
        },
        102 => {
            let a = "application/vnd.oasis.opendocument.database-template"@;
            let b = "application/vnd.oasis.opendocument.database-template"@;
            reveal_strlit("application/vnd.oasis.opendocument.database-template");
            reveal_strlit("application/vnd.oasis.opendocument.database-template");
            lemma_lex_order_basics(a, b);
        },
        103 => {
            let a = "application/vnd.oasis.opendocument.database-template"@;
            let b = "application/vnd.oasis.opendocument.database-template"@;
            reveal_strlit("application/vnd.oasis.opendocument.database-template");
            reveal_strlit("application/vnd.oasis.opendocument.database-template");
            lemma_lex_order_basics(a, b);
        },
        104 => {
            let a = "application/vnd.oasis.opendocument.database-template"@;
            let b = "application/vnd.oasis.opendocument.database-template"@;
            reveal_strlit("application/vnd.oasis.opendocument.database-template");
            reveal_strlit("application/vnd.oasis.opendocument.database-template");
            lemma_lex_order_basics(a, b);
        },
        105 => {
            let a = "application/vnd.oasis.opendocument.database-template"@;
            let b = "application/vnd.oasis.opendocument.formula"@;
            reveal_strlit("application/vnd.oasis.opendocument.database-template");
            reveal_strlit("application/vnd.oasis.opendocument.formula");
            assert(a.take(35) =~= b.take(35));
            lemma_lex_order_common_prefix(a, b, 35);
        },
        106 => {
            let a = "application/vnd.oasis.opendocument.formula"@;
            let b = "application/vnd.oasis.opendocument.formula"@;
            reveal_strlit("application/vnd.oasis.opendocument.formula");
            reveal_strlit("application/vnd.oasis.opendocument.formula");
            lemma_lex_order_basics(a, b);
        },
        107 => {
            let a = "application/vnd.oasis.opendocument.formula"@;
            let b = "application/vnd.oasis.opendocument.formula"@;
            reveal_strlit("application/vnd.oasis.opendocument.formula");
            reveal_strlit("application/vnd.oasis.opendocument.formula");
            lemma_lex_order_basics(a, b);
        },
        108 => {
            let a = "application/vnd.oasis.opendocument.formula"@;
            let b = "application/vnd.oasis.opendocument.formula-template"@;
            reveal_strlit("application/vnd.oasis.opendocument.formula");
            reveal_strlit("application/vnd.oasis.opendocument.formula-template");
            assert(a.take(42) =~= b.take(42));
            lemma_lex_order_common_prefix(a, b, 42);
        },
        109 => {
            let a = "application/vnd.oasis.opendocument.formula-template"@;
            let b = "application/vnd.oasis.opendocument.formula-template"@;
            reveal_strlit("application/vnd.oasis.opendocument.formula-template");
            reveal_strlit("application/vnd.oasis.opendocument.formula-template");
            lemma_lex_order_basics(a, b);
        },
        110 => {
            let a = "application/vnd.oasis.opendocument.formula-template"@;
            let b = "application/vnd.oasis.opendocument.formula-template"@;
            reveal_strlit("application/vnd.oasis.opendocument.formula-template");
            reveal_strlit("application/vnd.oasis.opendocument.formula-template");
            lemma_lex_order_basics(a, b);
        },
        111 => {
            let a = "application/vnd.oasis.opendocument.formula-template"@;
            let b = "application/vnd.oasis.opendocument.graphics"@;
            reveal_strlit("application/vnd.oasis.opendocument.formula-template");
            reveal_strlit("application/vnd.oasis.opendocument.graphics");
            assert(a.take(35) =~= b.take(35));
            lemma_lex_order_common_prefix(a, b, 35);
        },
        112 => {
            let a = "application/vnd.oasis.opendocument.graphics"@;
            let b = "application/vnd.oasis.opendocument.graphics"@;
            reveal_strlit("application/vnd.oasis.opendocument.graphics");
            reveal_strlit("application/vnd.oasis.opendocument.graphics");
            lemma_lex_order_basics(a, b);
        },
        113 => {
            let a = "application/vnd.oasis.opendocument.graphics"@;
            let b = "application/vnd.oasis.opendocument.graphics"@;
            reveal_strlit("application/vnd.oasis.opendocument.graphics");
            reveal_strlit("application/vnd.oasis.opendocument.graphics");
            lemma_lex_order_basics(a, b);
        },
        114 => {
            let a = "application/vnd.oasis.opendocument.graphics"@;
            let b = "application/vnd.oasis.opendocument.graphics"@;
            reveal_strlit("application/vnd.oasis.opendocument.graphics");
            reveal_strlit("application/vnd.oasis.opendocument.graphics");
            lemma_lex_order_basics(a, b);
        },
        115 => {
            let a = "application/vnd.oasis.opendocument.graphics"@;
            let b = "application/vnd.oasis.opendocument.graphics"@;
            reveal_strlit("application/vnd.oasis.opendocument.graphics");
            reveal_strlit("application/vnd.oasis.opendocument.graphics");
            lemma_lex_order_basics(a, b);
        },
        116 => {
            let a = "application/vnd.oasis.opendocument.graphics"@;
            let b = "application/vnd.oasis.opendocument.graphics-template"@;
            reveal_strlit("application/vnd.oasis.opendocument.graphics");
            reveal_strlit("application/vnd.oasis.opendocument.graphics-template");
            assert(a.take(43) =~= b.take(43));
            lemma_lex_order_common_prefix(a, b, 43);
        },
        117 => {
            let a = "application/vnd.oasis.opendocument.graphics-template"@;
            let b = "application/vnd.oasis.opendocument.graphics-template"@;
            reveal_strlit("application/vnd.oasis.opendocument.graphics-template");
            reveal_strlit("application/vnd.oasis.opendocument.graphics-template");
            lemma_lex_order_basics(a, b);
        },
        118 => {
            let a = "application/vnd.oasis.opendocument.graphics-template"@;
            let b = "application/vnd.oasis.opendocument.graphics-template"@;
            reveal_strlit("application/vnd.oasis.opendocument.graphics-template");
            reveal_strlit("application/vnd.oasis.opendocument.graphics-template");
            lemma_lex_order_basics(a, b);
        },
        119 => {
            let a = "application/vnd.oasis.opendocument.graphics-template"@;
            let b = "application/vnd.oasis.opendocument.graphics-template"@;
            reveal_strlit("application/vnd.oasis.opendocument.graphics-template");
            reveal_strlit("application/vnd.oasis.opendocument.graphics-template");
            lemma_lex_order_basics(a, b);
        },
        _ => {},
    }
}

proof fn lemma_mime_keys_adjacent_120(i: usize)
    requires
        120 <= i < 160,
    ensures
        lex_order(mime_key(i), mime_key((i + 1) as usize)) <= 0,
{
    match i {
        120 => {
            let a = "application/vnd.oasis.opendocument.graphics-template"@;
            let b = "application/vnd.oasis.opendocument.graphics-template"@;
            reveal_strlit("application/vnd.oasis.opendocument.graphics-template");
            reveal_strlit("application/vnd.oasis.opendocument.graphics-template");
            lemma_lex_order_basics(a, b);
        },
        121 => {
            let a = "application/vnd.oasis.opendocument.graphics-template"@;
            let b = "application/vnd.oasis.opendocument.presentation"@;
            reveal_strlit("application/vnd.oasis.opendocument.graphics-template");
            reveal_strlit("application/vnd.oasis.opendocument.presentation");
            assert(a.take(35) =~= b.take(35));
            lemma_lex_order_common_prefix(a, b, 35);
        },
        122 => {
            let a = "application/vnd.oasis.opendocument.presentation"@;
            let b = "application/vnd.oasis.opendocument.presentation"@;
            reveal_strlit("application/vnd.oasis.opendocument.presentation");
            reveal_strlit("application/vnd.oasis.opendocument.presentation");
            lemma_lex_order_basics(a, b);
        },
        123 => {
            let a = "application/vnd.oasis.opendocument.presentation"@;
            let b = "application/vnd.oasis.opendocument.presentation"@;
            reveal_strlit("application/vnd.oasis.opendocument.presentation");
            reveal_strlit("application/vnd.oasis.opendocument.presentation");
            lemma_lex_order_basics(a, b);
        },
        124 => {
            let a = "application/vnd.oasis.opendocument.presentation"@;
            let b = "application/vnd.oasis.opendocument.presentation"@;
            reveal_strlit("application/vnd.oasis.opendocument.presentation");
            reveal_strlit("application/vnd.oasis.opendocument.presentation");
            lemma_lex_order_basics(a, b);
        },
        125 => {
            let a = "application/vnd.oasis.opendocument.presentation"@;
            let b = "application/vnd.oasis.opendocument.presentation"@;
            reveal_strlit("application/vnd.oasis.opendocument.presentation");
            reveal_strlit("application/vnd.oasis.opendocument.presentation");
            lemma_lex_order_basics(a, b);
        },
        126 => {
            let a = "application/vnd.oasis.opendocument.presentation"@;
            let b = "application/vnd.oasis.opendocument.presentation-template"@;
            reveal_strlit("application/vnd.oasis.opendocument.presentation");
            reveal_strlit("application/vnd.oasis.opendocument.presentation-template");
            assert(a.take(47) =~= b.take(47));
            lemma_lex_order_common_prefix(a, b, 47);
        },
        127 => {
            let a = "application/vnd.oasis.opendocument.presentation-template"@;
            let b = "application/vnd.oasis.opendocument.presentation-template"@;
            reveal_strlit("application/vnd.oasis.opendocument.presentation-template");
            reveal_strlit("application/vnd.oasis.opendocument.presentation-template");
            lemma_lex_order_basics(a, b);
        },
        128 => {
            let a = "application/vnd.oasis.opendocument.presentation-template"@;
            let b = "application/vnd.oasis.opendocument.presentation-template"@;
            reveal_strlit("application/vnd.oasis.opendocument.presentation-template");
            reveal_strlit("application/vnd.oasis.opendocument.presentation-template");
            lemma_lex_order_basics(a, b);
        },
        129 => {
            let a = "application/vnd.oasis.opendocument.presentation-template"@;
            let b = "application/vnd.oasis.opendocument.presentation-template"@;
            reveal_strlit("application/vnd.oasis.opendocument.presentation-template");
            reveal_strlit("application/vnd.oasis.opendocument.presentation-template");
            lemma_lex_order_basics(a, b);
        },
        130 => {
            let a = "application/vnd.oasis.opendocument.presentation-template"@;
            let b = "application/vnd.oasis.opendocument.spreadsheet"@;
            reveal_strlit("application/vnd.oasis.opendocument.presentation-template");
            reveal_strlit("application/vnd.oasis.opendocument.spreadsheet");
            assert(a.take(35) =~= b.take(35));
            lemma_lex_order_common_prefix(a, b, 35);
        },
        131 => {
            let a = "application/vnd.oasis.opendocument.spreadsheet"@;
            let b = "application/vnd.oasis.opendocument.spreadsheet"@;
            reveal_strlit("application/vnd.oasis.opendocument.spreadsheet");
            reveal_strlit("application/vnd.oasis.opendocument.spreadsheet");
            lemma_lex_order_basics(a, b);
        },
        132 => {
            let a = "application/vnd.oasis.opendocument.spreadsheet"@;
            let b = "application/vnd.oasis.opendocument.spreadsheet"@;
            reveal_strlit("application/vnd.oasis.opendocument.spreadsheet");
            reveal_strlit("application/vnd.oasis.opendocument.spreadsheet");
            lemma_lex_order_basics(a, b);
        },
        133 => {
            let a = "application/vnd.oasis.opendocument.spreadsheet"@;
            let b = "application/vnd.oasis.opendocument.spreadsheet"@;
            reveal_strlit("application/vnd.oasis.opendocument.spreadsheet");
            reveal_strlit("application/vnd.oasis.opendocument.spreadsheet");
            lemma_lex_order_basics(a, b);
        },
        134 => {
            let a = "application/vnd.oasis.opendocument.spreadsheet"@;
            let b = "application/vnd.oasis.opendocument.spreadsheet"@;
            reveal_strlit("application/vnd.oasis.opendocument.spreadsheet");
            reveal_strlit("application/vnd.oasis.opendocument.spreadsheet");
            lemma_lex_order_basics(a, b);
        },
        135 => {
            let a = "application/vnd.oasis.opendocument.spreadsheet"@;
            let b = "application/vnd.oasis.opendocument.spreadsheet"@;
            reveal_strlit("application/vnd.oasis.opendocument.spreadsheet");
            reveal_strlit("application/vnd.oasis.opendocument.spreadsheet");
            lemma_lex_order_basics(a, b);
        },
        136 => {
            let a = "application/vnd.oasis.opendocument.spreadsheet"@;
            let b = "application/vnd.oasis.opendocument.spreadsheet-template"@;
            reveal_strlit("application/vnd.oasis.opendocument.spreadsheet");
            reveal_strlit("application/vnd.oasis.opendocument.spreadsheet-template");
            assert(a.take(46) =~= b.take(46));
            lemma_lex_order_common_prefix(a, b, 46);
        },
        137 => {
            let a = "application/vnd.oasis.opendocument.spreadsheet-template"@;
            let b = "application/vnd.oasis.opendocument.spreadsheet-template"@;
            reveal_strlit("application/vnd.oasis.opendocument.spreadsheet-template");
            reveal_strlit("application/vnd.oasis.opendocument.spreadsheet-template");
            lemma_lex_order_basics(a, b);
        },
        138 => {
            let a = "application/vnd.oasis.opendocument.spreadsheet-template"@;
            let b = "application/vnd.oasis.opendocument.spreadsheet-template"@;
            reveal_strlit("application/vnd.oasis.opendocument.spreadsheet-template");
            reveal_strlit("application/vnd.oasis.opendocument.spreadsheet-template");
            lemma_lex_order_basics(a, b);
        },
        139 => {
            let a = "application/vnd.oasis.opendocument.spreadsheet-template"@;
            let b = "application/vnd.oasis.opendocument.text"@;
            reveal_strlit("application/vnd.oasis.opendocument.spreadsheet-template");
            reveal_strlit("application/vnd.oasis.opendocument.text");
            assert(a.take(35) =~= b.take(35));
            lemma_lex_order_common_prefix(a, b, 35);
        },
        140 => {
            let a = "application/vnd.oasis.opendocument.text"@;
            let b = "application/vnd.oasis.opendocument.text"@;
            reveal_strlit("application/vnd.oasis.opendocument.text");
            reveal_strlit("application/vnd.oasis.opendocument.text");
            lemma_lex_order_basics(a, b);
        },
        141 => {
            let a = "application/vnd.oasis.opendocument.text"@;
            let b = "application/vnd.oasis.opendocument.text"@;
            reveal_strlit("application/vnd.oasis.opendocument.text");
            reveal_strlit("application/vnd.oasis.opendocument.text");
            lemma_lex_order_basics(a, b);
        },
        142 => {
            let a = "application/vnd.oasis.opendocument.text"@;
            let b = "application/vnd.oasis.opendocument.text"@;
            reveal_strlit("application/vnd.oasis.opendocument.text");
            reveal_strlit("application/vnd.oasis.opendocument.text");
            lemma_lex_order_basics(a, b);
        },
        143 => {
            let a = "application/vnd.oasis.opendocument.text"@;
            let b = "application/vnd.oasis.opendocument.text"@;
            reveal_strlit("application/vnd.oasis.opendocument.text");
            reveal_strlit("application/vnd.oasis.opendocument.text");
            lemma_lex_order_basics(a, b);
        },
        144 => {
            let a = "application/vnd.oasis.opendocument.text"@;
            let b = "application/vnd.oasis.opendocument.text"@;
            reveal_strlit("application/vnd.oasis.opendocument.text");
            reveal_strlit("application/vnd.oasis.opendocument.text");
            lemma_lex_order_basics(a, b);
        },
        145 => {
            let a = "application/vnd.oasis.opendocument.text"@;
            let b = "application/vnd.oasis.opendocument.text"@;
            reveal_strlit("application/vnd.oasis.opendocument.text");
            reveal_strlit("application/vnd.oasis.opendocument.text");
            lemma_lex_order_basics(a, b);
        },
        146 => {
            let a = "application/vnd.oasis.opendocument.text"@;
            let b = "application/vnd.oasis.opendocument.text"@;
            reveal_strlit("application/vnd.oasis.opendocument.text");
            reveal_strlit("application/vnd.oasis.opendocument.text");
            lemma_lex_order_basics(a, b);
        },
        147 => {
            let a = "application/vnd.oasis.opendocument.text"@;
            let b = "application/vnd.oasis.opendocument.text-master"@;
            reveal_strlit("application/vnd.oasis.opendocument.text");
            reveal_strlit("application/vnd.oasis.opendocument.text-master");
            assert(a.take(39) =~= b.take(39));
            lemma_lex_order_common_prefix(a, b, 39);
        },
        148 => {
            let a = "application/vnd.oasis.opendocument.text-master"@;
            let b = "application/vnd.oasis.opendocument.text-master"@;
            reveal_strlit("application/vnd.oasis.opendocument.text-master");
            reveal_strlit("application/vnd.oasis.opendocument.text-master");
            lemma_lex_order_basics(a, b);
        },
        149 => {
            let a = "application/vnd.oasis.opendocument.text-master"@;
            let b = "application/vnd.oasis.opendocument.text-master"@;
            reveal_strlit("application/vnd.oasis.opendocument.text-master");
            reveal_strlit("application/vnd.oasis.opendocument.text-master");
            lemma_lex_order_basics(a, b);
        },
        150 => {
            let a = "application/vnd.oasis.opendocument.text-master"@;
            let b = "application/vnd.oasis.opendocument.text-master-template"@;
            reveal_strlit("application/vnd.oasis.opendocument.text-master");
            reveal_strlit("application/vnd.oasis.opendocument.text-master-template");
            assert(a.take(46) =~= b.take(46));
            lemma_lex_order_common_prefix(a, b, 46);
        },
        151 => {
            let a = "application/vnd.oasis.opendocument.text-master-template"@;
            let b = "application/vnd.oasis.opendocument.text-master-template"@;
            reveal_strlit("application/vnd.oasis.opendocument.text-master-template");
            reveal_strlit("application/vnd.oasis.opendocument.text-master-template");
            lemma_lex_order_basics(a, b);
        },
        152 => {
            let a = "application/vnd.oasis.opendocument.text-master-template"@;
            let b = "application/vnd.oasis.opendocument.text-master-template"@;
            reveal_strlit("application/vnd.oasis.opendocument.text-master-template");
            reveal_strlit("application/vnd.oasis.opendocument.text-master-template");
            lemma_lex_order_basics(a, b);
        },
        153 => {
            let a = "application/vnd.oasis.opendocument.text-master-template"@;
            let b = "application/vnd.oasis.opendocument.text-template"@;
            reveal_strlit("application/vnd.oasis.opendocument.text-master-template");
            reveal_strlit("application/vnd.oasis.opendocument.text-template");
            assert(a.take(40) =~= b.take(40));
            lemma_lex_order_common_prefix(a, b, 40);
        },
        154 => {
            let a = "application/vnd.oasis.opendocument.text-template"@;
            let b = "application/vnd.oasis.opendocument.text-template"@;
            reveal_strlit("application/vnd.oasis.opendocument.text-template");
            reveal_strlit("application/vnd.oasis.opendocument.text-template");
            lemma_lex_order_basics(a, b);
        },
        155 => {
            let a = "application/vnd.oasis.opendocument.text-template"@;
            let b = "application/vnd.oasis.opendocument.text-template"@;
            reveal_strlit("application/vnd.oasis.opendocument.text-template");
            reveal_strlit("application/vnd.oasis.opendocument.text-template");
            lemma_lex_order_basics(a, b);
        },
        156 => {
            let a = "application/vnd.oasis.opendocument.text-template"@;
            let b = "application/vnd.oasis.opendocument.text-template"@;
            reveal_strlit("application/vnd.oasis.opendocument.text-template");
            reveal_strlit("application/vnd.oasis.opendocument.text-template");
            lemma_lex_order_basics(a, b);
        },
        157 => {
            let a = "application/vnd.oasis.opendocument.text-template"@;
            let b = "application/vnd.oasis.opendocument.text-template"@;
            reveal_strlit("application/vnd.oasis.opendocument.text-template");
            reveal_strlit("application/vnd.oasis.opendocument.text-template");
            lemma_lex_order_basics(a, b);
        },
        158 => {
            let a = "application/vnd.oasis.opendocument.text-template"@;
            let b = "application/vnd.oasis.opendocument.text-template"@;
            reveal_strlit("application/vnd.oasis.opendocument.text-template");
            reveal_strlit("application/vnd.oasis.opendocument.text-template");
            lemma_lex_order_basics(a, b);
        },
        159 => {
            let a = "application/vnd.oasis.opendocument.text-template"@;
            let b = "application/vnd.oasis.opendocument.text-template"@;
            reveal_strlit("application/vnd.oasis.opendocument.text-template");
            reveal_strlit("application/vnd.oasis.opendocument.text-template");
            lemma_lex_order_basics(a, b);
        },
        _ => {},
    }
}

proof fn lemma_mime_keys_adjacent_160(i: usize)
    requires
        160 <= i < 200,
    ensures
        lex_order(mime_key(i), mime_key((i + 1) as usize)) <= 0,
{
    match i {
        160 => {
            let a = "application/vnd.oasis.opendocument.text-template"@;
            let b = "application/vnd.oasis.opendocument.text-template"@;
            reveal_strlit("application/vnd.oasis.opendocument.text-template");
            reveal_strlit("application/vnd.oasis.opendocument.text-template");
            lemma_lex_order_basics(a, b);
        },
        161 => {
            let a = "application/vnd.oasis.opendocument.text-template"@;
            let b = "application/vnd.oasis.opendocument.text-template"@;
            reveal_strlit("application/vnd.oasis.opendocument.text-template");
            reveal_strlit("application/vnd.oasis.opendocument.text-template");
            lemma_lex_order_basics(a, b);
        },
        162 => {
            let a = "application/vnd.oasis.opendocument.text-template"@;
            let b = "application/vnd.oasis.opendocument.text-web"@;
            reveal_strlit("application/vnd.oasis.opendocument.text-template");
            reveal_strlit("application/vnd.oasis.opendocument.text-web");
            assert(a.take(40) =~= b.take(40));
            lemma_lex_order_common_prefix(a, b, 40);
        },
        163 => {
            let a = "application/vnd.oasis.opendocument.text-web"@;
            let b = "application/vnd.oasis.opendocument.text-web"@;
            reveal_strlit("application/vnd.oasis.opendocument.text-web");
            reveal_strlit("application/vnd.oasis.opendocument.text-web");
            lemma_lex_order_basics(a, b);
        },
        164 => {
            let a = "application/vnd.oasis.opendocument.text-web"@;
            let b = "application/vnd.oasis.opendocument.text-web"@;
            reveal_strlit("application/vnd.oasis.opendocument.text-web");
            reveal_strlit("application/vnd.oasis.opendocument.text-web");
            lemma_lex_order_basics(a, b);
        },
        165 => {
            let a = "application/vnd.oasis.opendocument.text-web"@;
            let b = "application/vnd.oasis.opendocument.text-web"@;
            reveal_strlit("application/vnd.oasis.opendocument.text-web");
            reveal_strlit("application/vnd.oasis.opendocument.text-web");
            lemma_lex_order_basics(a, b);
        },
        166 => {
            let a = "application/vnd.oasis.opendocument.text-web"@;
            let b = "application/vnd.oasis.opendocument.text-web"@;
            reveal_strlit("application/vnd.oasis.opendocument.text-web");
            reveal_strlit("application/vnd.oasis.opendocument.text-web");
            lemma_lex_order_basics(a, b);
        },
        167 => {
            let a = "application/vnd.oasis.opendocument.text-web"@;
            let b = "application/vnd.oasis.opendocument.text-web"@;
            reveal_strlit("application/vnd.oasis.opendocument.text-web");
            reveal_strlit("application/vnd.oasis.opendocument.text-web");
            lemma_lex_order_basics(a, b);
        },
        168 => {
            let a = "application/vnd.oasis.opendocument.text-web"@;
            let b = "application/vnd.openxmlformats-officedocument.presentationml.presentation"@;
            reveal_strlit("application/vnd.oasis.opendocument.text-web");
            reveal_strlit("application/vnd.openxmlformats-officedocument.presentationml.presentation");
            assert(a.take(17) =~= b.take(17));
            lemma_lex_order_common_prefix(a, b, 17);
        },
        169 => {
            let a = "application/vnd.openxmlformats-officedocument.presentationml.presentation"@;
            let b = "application/vnd.openxmlformats-officedocument.presentationml.slideshow"@;
            reveal_strlit("application/vnd.openxmlformats-officedocument.presentationml.presentation");
            reveal_strlit("application/vnd.openxmlformats-officedocument.presentationml.slideshow");
            assert(a.take(61) =~= b.take(61));
            lemma_lex_order_common_prefix(a, b, 61);
        },
        170 => {
            let a = "application/vnd.openxmlformats-officedocument.presentationml.slideshow"@;
            let b = "application/vnd.openxmlformats-officedocument.spreadsheetml.sheet"@;
            reveal_strlit("application/vnd.openxmlformats-officedocument.presentationml.slideshow");
            reveal_strlit("application/vnd.openxmlformats-officedocument.spreadsheetml.sheet");
            assert(a.take(46) =~= b.take(46));
            lemma_lex_order_common_prefix(a, b, 46);
        },
        171 => {
            let a = "application/vnd.openxmlformats-officedocument.spreadsheetml.sheet"@;
            let b = "application/vnd.openxmlformats-officedocument.wordprocessingml.document"@;
            reveal_strlit("application/vnd.openxmlformats-officedocument.spreadsheetml.sheet");
            reveal_strlit("application/vnd.openxmlformats-officedocument.wordprocessingml.document");
            assert(a.take(46) =~= b.take(46));
            lemma_lex_order_common_prefix(a, b, 46);
        },
        172 => {
            let a = "application/vnd.openxmlformats-officedocument.wordprocessingml.document"@;
            let b = "application/vnd.oziexplorer.plt"@;
            reveal_strlit("application/vnd.openxmlformats-officedocument.wordprocessingml.document");
            reveal_strlit("application/vnd.oziexplorer.plt");
            assert(a.take(17) =~= b.take(17));
            lemma_lex_order_common_prefix(a, b, 17);
        },
        173 => {
            let a = "application/vnd.oziexplorer.plt"@;
            let b = "application/vnd.oziexplorer.rte"@;
            reveal_strlit("application/vnd.oziexplorer.plt");
            reveal_strlit("application/vnd.oziexplorer.rte");
            assert(a.take(28) =~= b.take(28));
            lemma_lex_order_common_prefix(a, b, 28);
        },
        174 => {
            let a = "application/vnd.oziexplorer.rte"@;
            let b = "application/vnd.oziexplorer.wpt"@;
            reveal_strlit("application/vnd.oziexplorer.rte");
            reveal_strlit("application/vnd.oziexplorer.wpt");
            assert(a.take(28) =~= b.take(28));
            lemma_lex_order_common_prefix(a, b, 28);
        },
        175 => {
            let a = "application/vnd.oziexplorer.wpt"@;
            let b = "application/vnd.rmaps.sqlite"@;
            reveal_strlit("application/vnd.oziexplorer.wpt");
            reveal_strlit("application/vnd.rmaps.sqlite");
            assert(a.take(16) =~= b.take(16));
            lemma_lex_order_common_prefix(a, b, 16);
        },
        176 => {
            let a = "application/vnd.rmaps.sqlite"@;
            let b = "application/vnd.scribus"@;
            reveal_strlit("application/vnd.rmaps.sqlite");
            reveal_strlit("application/vnd.scribus");
            assert(a.take(16) =~= b.take(16));
            lemma_lex_order_common_prefix(a, b, 16);
        },
        177 => {
            let a = "application/vnd.scribus"@;
            let b = "application/vnd.shp"@;
            reveal_strlit("application/vnd.scribus");
            reveal_strlit("application/vnd.shp");
            assert(a.take(17) =~= b.take(17));
            lemma_lex_order_common_prefix(a, b, 17);
        },
        178 => {
            let a = "application/vnd.shp"@;
            let b = "application/vnd.shx"@;
            reveal_strlit("application/vnd.shp");
            reveal_strlit("application/vnd.shx");
            assert(a.take(18) =~= b.take(18));
            lemma_lex_order_common_prefix(a, b, 18);
        },
        179 => {
            let a = "application/vnd.shx"@;
            let b = "application/vnd.snap"@;
            reveal_strlit("application/vnd.shx");
            reveal_strlit("application/vnd.snap");
            assert(a.take(17) =~= b.take(17));
            lemma_lex_order_common_prefix(a, b, 17);
        },
        180 => {
            let a = "application/vnd.snap"@;
            let b = "application/vnd.sqlite2"@;
            reveal_strlit("application/vnd.snap");
            reveal_strlit("application/vnd.sqlite2");
            assert(a.take(17) =~= b.take(17));
            lemma_lex_order_common_prefix(a, b, 17);
        },
        181 => {
            let a = "application/vnd.sqlite2"@;
            let b = "application/vnd.sqlite3"@;
            reveal_strlit("application/vnd.sqlite2");
            reveal_strlit("application/vnd.sqlite3");
            assert(a.take(22) =~= b.take(22));
            lemma_lex_order_common_prefix(a, b, 22);
        },
        182 => {
            let a = "application/vnd.sqlite3"@;
            let b = "application/vnd.sqlite3"@;
            reveal_strlit("application/vnd.sqlite3");
            reveal_strlit("application/vnd.sqlite3");
            lemma_lex_order_basics(a, b);
        },
        183 => {
            let a = "application/vnd.sqlite3"@;
            let b = "application/vnd.squashfs"@;
            reveal_strlit("application/vnd.sqlite3");
            reveal_strlit("application/vnd.squashfs");
            assert(a.take(18) =~= b.take(18));
            lemma_lex_order_common_prefix(a, b, 18);
        },
        184 => {
            let a = "application/vnd.squashfs"@;
            let b = "application/vnd.tcpdump.pcap"@;
            reveal_strlit("application/vnd.squashfs");
            reveal_strlit("application/vnd.tcpdump.pcap");
            assert(a.take(16) =~= b.take(16));
            lemma_lex_order_common_prefix(a, b, 16);
        },
        185 => {
            let a = "application/vnd.tcpdump.pcap"@;
            let b = "application/vnd.wolfram.cdf"@;
            reveal_strlit("application/vnd.tcpdump.pcap");
            reveal_strlit("application/vnd.wolfram.cdf");
            assert(a.take(16) =~= b.take(16));
            lemma_lex_order_common_prefix(a, b, 16);
        },
        186 => {
            let a = "application/vnd.wolfram.cdf"@;
            let b = "application/vnd.wolfram.mathematica.package"@;
            reveal_strlit("application/vnd.wolfram.cdf");
            reveal_strlit("application/vnd.wolfram.mathematica.package");
            assert(a.take(24) =~= b.take(24));
            lemma_lex_order_common_prefix(a, b, 24);
        },
        187 => {
            let a = "application/vnd.wolfram.mathematica.package"@;
            let b = "application/vnd.wolfram.nb"@;
            reveal_strlit("application/vnd.wolfram.mathematica.package");
            reveal_strlit("application/vnd.wolfram.nb");
            assert(a.take(24) =~= b.take(24));
            lemma_lex_order_common_prefix(a, b, 24);
        },
        188 => {
            let a = "application/vnd.wolfram.nb"@;
            let b = "application/vnd.wolfram.player"@;
            reveal_strlit("application/vnd.wolfram.nb");
            reveal_strlit("application/vnd.wolfram.player");
            assert(a.take(24) =~= b.take(24));
            lemma_lex_order_common_prefix(a, b, 24);
        },
        189 => {
            let a = "application/vnd.wolfram.player"@;
            let b = "application/vnd.wolfram.wl"@;
            reveal_strlit("application/vnd.wolfram.player");
            reveal_strlit("application/vnd.wolfram.wl");
            assert(a.take(24) =~= b.take(24));
            lemma_lex_order_common_prefix(a, b, 24);
        },
        190 => {
            let a = "application/vnd.wolfram.wl"@;
            let b = "application/vnd.wolfram.wls"@;
            reveal_strlit("application/vnd.wolfram.wl");
            reveal_strlit("application/vnd.wolfram.wls");
            assert(a.take(26) =~= b.take(26));
            lemma_lex_order_common_prefix(a, b, 26);
        },
        191 => {
            let a = "application/vnd.wolfram.wls"@;
            let b = "application/wasm"@;
            reveal_strlit("application/vnd.wolfram.wls");
            reveal_strlit("application/wasm");
            assert(a.take(12) =~= b.take(12));
            lemma_lex_order_common_prefix(a, b, 12);
        },
        192 => {
            let a = "application/wasm"@;
            let b = "application/x-adobe-indesign"@;
            reveal_strlit("application/wasm");
            reveal_strlit("application/x-adobe-indesign");
            assert(a.take(12) =~= b.take(12));
            lemma_lex_order_common_prefix(a, b, 12);
        },
        193 => {
            let a = "application/x-adobe-indesign"@;
            let b = "application/x-apple-diskimage"@;
            reveal_strlit("application/x-adobe-indesign");
            reveal_strlit("application/x-apple-diskimage");
            assert(a.take(15) =~= b.take(15));
            lemma_lex_order_common_prefix(a, b, 15);
        },
        194 => {
            let a = "application/x-apple-diskimage"@;
            let b = "application/x-applix-spreadsheet"@;
            reveal_strlit("application/x-apple-diskimage");
            reveal_strlit("application/x-applix-spreadsheet");
            assert(a.take(18) =~= b.take(18));
            lemma_lex_order_common_prefix(a, b, 18);
        },
        195 => {
            let a = "application/x-applix-spreadsheet"@;
            let b = "application/x-audacity-project"@;
            reveal_strlit("application/x-applix-spreadsheet");
            reveal_strlit("application/x-audacity-project");
            assert(a.take(15) =~= b.take(15));
            lemma_lex_order_common_prefix(a, b, 15);
        },
        196 => {
            let a = "application/x-audacity-project"@;
            let b = "application/x-audacity-project+sqlite3"@;
            reveal_strlit("application/x-audacity-project");
            reveal_strlit("application/x-audacity-project+sqlite3");
            assert(a.take(30) =~= b.take(30));
            lemma_lex_order_common_prefix(a, b, 30);
        },
        197 => {
            let a = "application/x-audacity-project+sqlite3"@;
            let b = "application/x-bibtex-text-file"@;
            reveal_strlit("application/x-audacity-project+sqlite3");
            reveal_strlit("application/x-bibtex-text-file");
            assert(a.take(14) =~= b.take(14));
            lemma_lex_order_common_prefix(a, b, 14);
        },
        198 => {
            let a = "application/x-bibtex-text-file"@;
            let b = "application/x-bittorrent"@;
            reveal_strlit("application/x-bibtex-text-file");
            reveal_strlit("application/x-bittorrent");
            assert(a.take(16) =~= b.take(16));
            lemma_lex_order_common_prefix(a, b, 16);
        },
        199 => {
            let a = "application/x-bittorrent"@;
            let b = "application/x-bitwig-clip"@;
            reveal_strlit("application/x-bittorrent");
            reveal_strlit("application/x-bitwig-clip");
            assert(a.take(17) =~= b.take(17));
            lemma_lex_order_common_prefix(a, b, 17);
        },
        _ => {},
    }
}

proof fn lemma_mime_keys_adjacent_200(i: usize)
    requires
        200 <= i < 240,
    ensures
        lex_order(mime_key(i), mime_key((i + 1) as usize)) <= 0,
{
    match i {
        200 => {
            let a = "application/x-bitwig-clip"@;
            let b = "application/x-bitwig-clip"@;
            reveal_strlit("application/x-bitwig-clip");
            reveal_strlit("application/x-bitwig-clip");
            lemma_lex_order_basics(a, b);
        },
        201 => {
            let a = "application/x-bitwig-clip"@;
            let b = "application/x-bitwig-device"@;
            reveal_strlit("application/x-bitwig-clip");
            reveal_strlit("application/x-bitwig-device");
            assert(a.take(21) =~= b.take(21));
            lemma_lex_order_common_prefix(a, b, 21);
        },
        202 => {
            let a = "application/x-bitwig-device"@;
            let b = "application/x-bitwig-device"@;
            reveal_strlit("application/x-bitwig-device");
            reveal_strlit("application/x-bitwig-device");
            lemma_lex_order_basics(a, b);
        },
        203 => {
            let a = "application/x-bitwig-device"@;
            let b = "application/x-bitwig-extension"@;
            reveal_strlit("application/x-bitwig-device");
            reveal_strlit("application/x-bitwig-extension");
            assert(a.take(21) =~= b.take(21));
            lemma_lex_order_common_prefix(a, b, 21);
        },
        204 => {
            let a = "application/x-bitwig-extension"@;
            let b = "application/x-bitwig-impulse"@;
            reveal_strlit("application/x-bitwig-extension");
            reveal_strlit("application/x-bitwig-impulse");
            assert(a.take(21) =~= b.take(21));
            lemma_lex_order_common_prefix(a, b, 21);
        },
        205 => {
            let a = "application/x-bitwig-impulse"@;
            let b = "application/x-bitwig-modulator"@;
            reveal_strlit("application/x-bitwig-impulse");
            reveal_strlit("application/x-bitwig-modulator");
            assert(a.take(21) =~= b.take(21));
            lemma_lex_order_common_prefix(a, b, 21);
        },
        206 => {
            let a = "application/x-bitwig-modulator"@;
            let b = "application/x-bitwig-module"@;
            reveal_strlit("application/x-bitwig-modulator");
            reveal_strlit("application/x-bitwig-module");
            assert(a.take(26) =~= b.take(26));
            lemma_lex_order_common_prefix(a, b, 26);
        },
        207 => {
            let a = "application/x-bitwig-module"@;
            let b = "application/x-bitwig-package"@;
            reveal_strlit("application/x-bitwig-module");
            reveal_strlit("application/x-bitwig-package");
            assert(a.take(21) =~= b.take(21));
            lemma_lex_order_common_prefix(a, b, 21);
        },
        208 => {
            let a = "application/x-bitwig-package"@;
            let b = "application/x-bitwig-preset"@;
            reveal_strlit("application/x-bitwig-package");
            reveal_strlit("application/x-bitwig-preset");
            assert(a.take(22) =~= b.take(22));
            lemma_lex_order_common_prefix(a, b, 22);
        },
        209 => {
            let a = "application/x-bitwig-preset"@;
            let b = "application/x-bitwig-project"@;
            reveal_strlit("application/x-bitwig-preset");
            reveal_strlit("application/x-bitwig-project");
            assert(a.take(23) =~= b.take(23));
            lemma_lex_order_common_prefix(a, b, 23);
        },
        210 => {
            let a = "application/x-bitwig-project"@;
            let b = "application/x-bitwig-remote-controls"@;
            reveal_strlit("application/x-bitwig-project");
            reveal_strlit("application/x-bitwig-remote-controls");
            assert(a.take(21) =~= b.take(21));
            lemma_lex_order_common_prefix(a, b, 21);
        },
        211 => {
            let a = "application/x-bitwig-remote-controls"@;
            let b = "application/x-bitwig-studio"@;
            reveal_strlit("application/x-bitwig-remote-controls");
            reveal_strlit("application/x-bitwig-studio");
            assert(a.take(21) =~= b.take(21));
            lemma_lex_order_common_prefix(a, b, 21);
        },
        212 => {
            let a = "application/x-bitwig-studio"@;
            let b = "application/x-blender"@;
            reveal_strlit("application/x-bitwig-studio");
            reveal_strlit("application/x-blender");
            assert(a.take(15) =~= b.take(15));
            lemma_lex_order_common_prefix(a, b, 15);
        },
        213 => {
            let a = "application/x-blender"@;
            let b = "application/x-bps-patch"@;
            reveal_strlit("application/x-blender");
            reveal_strlit("application/x-bps-patch");
            assert(a.take(15) =~= b.take(15));
            lemma_lex_order_common_prefix(a, b, 15);
        },
        214 => {
            let a = "application/x-bps-patch"@;
            let b = "application/x-bsdiff"@;
            reveal_strlit("application/x-bps-patch");
            reveal_strlit("application/x-bsdiff");
            assert(a.take(15) =~= b.take(15));
            lemma_lex_order_common_prefix(a, b, 15);
        },
        215 => {
            let a = "application/x-bsdiff"@;
            let b = "application/x-bzpostscript"@;
            reveal_strlit("application/x-bsdiff");
            reveal_strlit("application/x-bzpostscript");
            assert(a.take(15) =~= b.take(15));
            lemma_lex_order_common_prefix(a, b, 15);
        },
        216 => {
            let a = "application/x-bzpostscript"@;
            let b = "application/x-cb7"@;
            reveal_strlit("application/x-bzpostscript");
            reveal_strlit("application/x-cb7");
            assert(a.take(14) =~= b.take(14));
            lemma_lex_order_common_prefix(a, b, 14);
        },
        217 => {
            let a = "application/x-cb7"@;
            let b = "application/x-cba"@;
            reveal_strlit("application/x-cb7");
            reveal_strlit("application/x-cba");
            assert(a.take(16) =~= b.take(16));
            lemma_lex_order_common_prefix(a, b, 16);
        },
        218 => {
            let a = "application/x-cba"@;
            let b = "application/x-cbr"@;
            reveal_strlit("application/x-cba");
            reveal_strlit("application/x-cbr");
            assert(a.take(16) =~= b.take(16));
            lemma_lex_order_common_prefix(a, b, 16);
        },
        219 => {
            let a = "application/x-cbr"@;
            let b = "application/x-cbt"@;
            reveal_strlit("application/x-cbr");
            reveal_strlit("application/x-cbt");
            assert(a.take(16) =~= b.take(16));
            lemma_lex_order_common_prefix(a, b, 16);
        },
        220 => {
            let a = "application/x-cbt"@;
            let b = "application/x-cbz"@;
            reveal_strlit("application/x-cbt");
            reveal_strlit("application/x-cbz");
            assert(a.take(16) =~= b.take(16));
            lemma_lex_order_common_prefix(a, b, 16);
        },
        221 => {
            let a = "application/x-cbz"@;
            let b = "application/x-cd-image"@;
            reveal_strlit("application/x-cbz");
            reveal_strlit("application/x-cd-image");
            assert(a.take(15) =~= b.take(15));
            lemma_lex_order_common_prefix(a, b, 15);
        },
        222 => {
            let a = "application/x-cd-image"@;
            let b = "application/x-clojure"@;
            reveal_strlit("application/x-cd-image");
            reveal_strlit("application/x-clojure");
            assert(a.take(15) =~= b.take(15));
            lemma_lex_order_common_prefix(a, b, 15);
        },
        223 => {
            let a = "application/x-clojure"@;
            let b = "application/x-clojurescript"@;
            reveal_strlit("application/x-clojure");
            reveal_strlit("application/x-clojurescript");
            assert(a.take(21) =~= b.take(21));
            lemma_lex_order_common_prefix(a, b, 21);
        },
        224 => {
            let a = "application/x-clojurescript"@;
            let b = "application/x-com.bitwig-clip.BitwigStudio"@;
            reveal_strlit("application/x-clojurescript");
            reveal_strlit("application/x-com.bitwig-clip.BitwigStudio");
            assert(a.take(15) =~= b.take(15));
            lemma_lex_order_common_prefix(a, b, 15);
        },
        225 => {
            let a = "application/x-com.bitwig-clip.BitwigStudio"@;
            let b = "application/x-com.bitwig-device.BitwigStudio"@;
            reveal_strlit("application/x-com.bitwig-clip.BitwigStudio");
            reveal_strlit("application/x-com.bitwig-device.BitwigStudio");
            assert(a.take(25) =~= b.take(25));
            lemma_lex_order_common_prefix(a, b, 25);
        },
        226 => {
            let a = "application/x-com.bitwig-device.BitwigStudio"@;
            let b = "application/x-com.bitwig.BitwigStudio"@;
            reveal_strlit("application/x-com.bitwig-device.BitwigStudio");
            reveal_strlit("application/x-com.bitwig.BitwigStudio");
            assert(a.take(24) =~= b.take(24));
            lemma_lex_order_common_prefix(a, b, 24);
        },
        227 => {
            let a = "application/x-com.bitwig.BitwigStudio"@;
            let b = "application/x-compressed-iso"@;
            reveal_strlit("application/x-com.bitwig.BitwigStudio");
            reveal_strlit("application/x-compressed-iso");
            assert(a.take(17) =~= b.take(17));
            lemma_lex_order_common_prefix(a, b, 17);
        },
        228 => {
            let a = "application/x-compressed-iso"@;
            let b = "application/x-cson"@;
            reveal_strlit("application/x-compressed-iso");
            reveal_strlit("application/x-cson");
            assert(a.take(15) =~= b.take(15));
            lemma_lex_order_common_prefix(a, b, 15);
        },
        229 => {
            let a = "application/x-cson"@;
            let b = "application/x-dbf"@;
            reveal_strlit("application/x-cson");
            reveal_strlit("application/x-dbf");
            assert(a.take(14) =~= b.take(14));
            lemma_lex_order_common_prefix(a, b, 14);
        },
        230 => {
            let a = "application/x-dbf"@;
            let b = "application/x-deb"@;
            reveal_strlit("application/x-dbf");
            reveal_strlit("application/x-deb");
            assert(a.take(15) =~= b.take(15));
            lemma_lex_order_common_prefix(a, b, 15);
        },
        231 => {
            let a = "application/x-deb"@;
            let b = "application/x-designer"@;
            reveal_strlit("application/x-deb");
            reveal_strlit("application/x-designer");
            assert(a.take(16) =~= b.take(16));
            lemma_lex_order_common_prefix(a, b, 16);
        },
        232 => {
            let a = "application/x-designer"@;
            let b = "application/x-e-theme"@;
            reveal_strlit("application/x-designer");
            reveal_strlit("application/x-e-theme");
            assert(a.take(14) =~= b.take(14));
            lemma_lex_order_common_prefix(a, b, 14);
        },
        233 => {
            let a = "application/x-e-theme"@;
            let b = "application/x-emerald-theme"@;
            reveal_strlit("application/x-e-theme");
            reveal_strlit("application/x-emerald-theme");
            assert(a.take(15) =~= b.take(15));
            lemma_lex_order_common_prefix(a, b, 15);
        },
        234 => {
            let a = "application/x-emerald-theme"@;
            let b = "application/x-fender-fenderstudio"@;
            reveal_strlit("application/x-emerald-theme");
            reveal_strlit("application/x-fender-fenderstudio");
            assert(a.take(14) =~= b.take(14));
            lemma_lex_order_common_prefix(a, b, 14);
        },
        235 => {
            let a = "application/x-fender-fenderstudio"@;
            let b = "application/x-fender-jamtrack"@;
            reveal_strlit("application/x-fender-fenderstudio");
            reveal_strlit("application/x-fender-jamtrack");
            assert(a.take(21) =~= b.take(21));
            lemma_lex_order_common_prefix(a, b, 21);
        },
        236 => {
            let a = "application/x-fender-jamtrack"@;
            let b = "application/x-fictionbook"@;
            reveal_strlit("application/x-fender-jamtrack");
            reveal_strlit("application/x-fictionbook");
            assert(a.take(15) =~= b.take(15));
            lemma_lex_order_common_prefix(a, b, 15);
        },
        237 => {
            let a = "application/x-fictionbook"@;
            let b = "application/x-fictionbook+xml"@;
            reveal_strlit("application/x-fictionbook");
            reveal_strlit("application/x-fictionbook+xml");
            assert(a.take(25) =~= b.take(25));
            lemma_lex_order_common_prefix(a, b, 25);
        },
        238 => {
            let a = "application/x-fictionbook+xml"@;
            let b = "application/x-firmware"@;
            reveal_strlit("application/x-fictionbook+xml");
            reveal_strlit("application/x-firmware");
            assert(a.take(16) =~= b.take(16));
            lemma_lex_order_common_prefix(a, b, 16);
        },
        239 => {
            let a = "application/x-firmware"@;
            let b = "application/x-gdbm"@;
            reveal_strlit("application/x-firmware");
            reveal_strlit("application/x-gdbm");
            assert(a.take(14) =~= b.take(14));
            lemma_lex_order_common_prefix(a, b, 14);
        },
        _ => {},
    }
}

proof fn lemma_mime_keys_adjacent_240(i: usize)
    requires
        240 <= i < 280,
    ensures
        lex_order(mime_key(i), mime_key((i + 1) as usize)) <= 0,
{
    match i {
        240 => {
            let a = "application/x-gdbm"@;
            let b = "application/x-gdscript"@;
            reveal_strlit("application/x-gdbm");
            reveal_strlit("application/x-gdscript");
            assert(a.take(16) =~= b.take(16));
            lemma_lex_order_common_prefix(a, b, 16);
        },
        241 => {
            let a = "application/x-gdscript"@;
            let b = "application/x-generic"@;
            reveal_strlit("application/x-gdscript");
            reveal_strlit("application/x-generic");
            assert(a.take(15) =~= b.take(15));
            lemma_lex_order_common_prefix(a, b, 15);
        },
        242 => {
            let a = "application/x-generic"@;
            let b = "application/x-generic"@;
            reveal_strlit("application/x-generic");
            reveal_strlit("application/x-generic");
            lemma_lex_order_basics(a, b);
        },
        243 => {
            let a = "application/x-generic"@;
            let b = "application/x-gettext-translation"@;
            reveal_strlit("application/x-generic");
            reveal_strlit("application/x-gettext-translation");
            assert(a.take(16) =~= b.take(16));
            lemma_lex_order_common_prefix(a, b, 16);
        },
        244 => {
            let a = "application/x-gettext-translation"@;
            let b = "application/x-godot-project"@;
            reveal_strlit("application/x-gettext-translation");
            reveal_strlit("application/x-godot-project");
            assert(a.take(15) =~= b.take(15));
            lemma_lex_order_common_prefix(a, b, 15);
        },
        245 => {
            let a = "application/x-godot-project"@;
            let b = "application/x-godot-resource"@;
            reveal_strlit("application/x-godot-project");
            reveal_strlit("application/x-godot-resource");
            assert(a.take(20) =~= b.take(20));
            lemma_lex_order_common_prefix(a, b, 20);
        },
        246 => {
            let a = "application/x-godot-resource"@;
            let b = "application/x-godot-scene"@;
            reveal_strlit("application/x-godot-resource");
            reveal_strlit("application/x-godot-scene");
            assert(a.take(20) =~= b.take(20));
            lemma_lex_order_common_prefix(a, b, 20);
        },
        247 => {
            let a = "application/x-godot-scene"@;
            let b = "application/x-godot-shader"@;
            reveal_strlit("application/x-godot-scene");
            reveal_strlit("application/x-godot-shader");
            assert(a.take(21) =~= b.take(21));
            lemma_lex_order_common_prefix(a, b, 21);
        },
        248 => {
            let a = "application/x-godot-shader"@;
            let b = "application/x-gpx"@;
            reveal_strlit("application/x-godot-shader");
            reveal_strlit("application/x-gpx");
            assert(a.take(15) =~= b.take(15));
            lemma_lex_order_common_prefix(a, b, 15);
        },
        249 => {
            let a = "application/x-gpx"@;
            let b = "application/x-gpx+xml"@;
            reveal_strlit("application/x-gpx");
            reveal_strlit("application/x-gpx+xml");
            assert(a.take(17) =~= b.take(17));
            lemma_lex_order_common_prefix(a, b, 17);
        },
        250 => {
            let a = "application/x-gpx+xml"@;
            let b = "application/x-gzpdf"@;
            reveal_strlit("application/x-gpx+xml");
            reveal_strlit("application/x-gzpdf");
            assert(a.take(15) =~= b.take(15));
            lemma_lex_order_common_prefix(a, b, 15);
        },
        251 => {
            let a = "application/x-gzpdf"@;
            let b = "application/x-gzpostscript"@;
            reveal_strlit("application/x-gzpdf");
            reveal_strlit("application/x-gzpostscript");
            assert(a.take(17) =~= b.take(17));
            lemma_lex_order_common_prefix(a, b, 17);
        },
        252 => {
            let a = "application/x-gzpostscript"@;
            let b = "application/x-hwp"@;
            reveal_strlit("application/x-gzpostscript");
            reveal_strlit("application/x-hwp");
            assert(a.take(14) =~= b.take(14));
            lemma_lex_order_common_prefix(a, b, 14);
        },
        253 => {
            let a = "application/x-hwp"@;
            let b = "application/x-hwpx"@;
            reveal_strlit("application/x-hwp");
            reveal_strlit("application/x-hwpx");
            assert(a.take(17) =~= b.take(17));
            lemma_lex_order_common_prefix(a, b, 17);
        },
        254 => {
            let a = "application/x-hwpx"@;
            let b = "application/x-ips-patch"@;
            reveal_strlit("application/x-hwpx");
            reveal_strlit("application/x-ips-patch");
            assert(a.take(14) =~= b.take(14));
            lemma_lex_order_common_prefix(a, b, 14);
        },
        255 => {
            let a = "application/x-ips-patch"@;
            let b = "application/x-ipynb+json"@;
            reveal_strlit("application/x-ips-patch");
            reveal_strlit("application/x-ipynb+json");
            assert(a.take(16) =~= b.take(16));
            lemma_lex_order_common_prefix(a, b, 16);
        },
        256 => {
            let a = "application/x-ipynb+json"@;
            let b = "application/x-iso"@;
            reveal_strlit("application/x-ipynb+json");
            reveal_strlit("application/x-iso");
            assert(a.take(15) =~= b.take(15));
            lemma_lex_order_common_prefix(a, b, 15);
        },
        257 => {
            let a = "application/x-iso"@;
            let b = "application/x-iso9600-appimage"@;
            reveal_strlit("application/x-iso");
            reveal_strlit("application/x-iso9600-appimage");
            assert(a.take(17) =~= b.take(17));
            lemma_lex_order_common_prefix(a, b, 17);
        },
        258 => {
            let a = "application/x-iso9600-appimage"@;
            let b = "application/x-jar"@;
            reveal_strlit("application/x-iso9600-appimage");
            reveal_strlit("application/x-jar");
            assert(a.take(14) =~= b.take(14));
            lemma_lex_order_common_prefix(a, b, 14);
        },
        259 => {
            let a = "application/x-jar"@;
            let b = "application/x-java"@;
            reveal_strlit("application/x-jar");
            reveal_strlit("application/x-java");
            assert(a.take(16) =~= b.take(16));
            lemma_lex_order_common_prefix(a, b, 16);
        },
        260 => {
            let a = "application/x-java"@;
            let b = "application/x-java-applet"@;
            reveal_strlit("application/x-java");
            reveal_strlit("application/x-java-applet");
            assert(a.take(18) =~= b.take(18));
            lemma_lex_order_common_prefix(a, b, 18);
        },
        261 => {
            let a = "application/x-java-applet"@;
            let b = "application/x-java-archive"@;
            reveal_strlit("application/x-java-applet");
            reveal_strlit("application/x-java-archive");
            assert(a.take(20) =~= b.take(20));
            lemma_lex_order_common_prefix(a, b, 20);
        },
        262 => {
            let a = "application/x-java-archive"@;
            let b = "application/x-javascript"@;
            reveal_strlit("application/x-java-archive");
            reveal_strlit("application/x-javascript");
            assert(a.take(18) =~= b.take(18));
            lemma_lex_order_common_prefix(a, b, 18);
        },
        263 => {
            let a = "application/x-javascript"@;
            let b = "application/x-julia"@;
            reveal_strlit("application/x-javascript");
            reveal_strlit("application/x-julia");
            assert(a.take(15) =~= b.take(15));
            lemma_lex_order_common_prefix(a, b, 15);
        },
        264 => {
            let a = "application/x-julia"@;
            let b = "application/x-kdenlive"@;
            reveal_strlit("application/x-julia");
            reveal_strlit("application/x-kdenlive");
            assert(a.take(14) =~= b.take(14));
            lemma_lex_order_common_prefix(a, b, 14);
        },
        265 => {
            let a = "application/x-kdenlive"@;
            let b = "application/x-keepass"@;
            reveal_strlit("application/x-kdenlive");
            reveal_strlit("application/x-keepass");
            assert(a.take(15) =~= b.take(15));
            lemma_lex_order_common_prefix(a, b, 15);
        },
        266 => {
            let a = "application/x-keepass"@;
            let b = "application/x-keepass2"@;
            reveal_strlit("application/x-keepass");
            reveal_strlit("application/x-keepass2");
            assert(a.take(21) =~= b.take(21));
            lemma_lex_order_common_prefix(a, b, 21);
        },
        267 => {
            let a = "application/x-keepass2"@;
            let b = "application/x-keepassx"@;
            reveal_strlit("application/x-keepass2");
            reveal_strlit("application/x-keepassx");
            assert(a.take(21) =~= b.take(21));
            lemma_lex_order_common_prefix(a, b, 21);
        },
        268 => {
            let a = "application/x-keepassx"@;
            let b = "application/x-keepassxc"@;
            reveal_strlit("application/x-keepassx");
            reveal_strlit("application/x-keepassxc");
            assert(a.take(22) =~= b.take(22));
            lemma_lex_order_common_prefix(a, b, 22);
        },
        269 => {
            let a = "application/x-keepassxc"@;
            let b = "application/x-keepassxc"@;
            reveal_strlit("application/x-keepassxc");
            reveal_strlit("application/x-keepassxc");
            lemma_lex_order_basics(a, b);
        },
        270 => {
            let a = "application/x-keepassxc"@;
            let b = "application/x-kexi-connectiondata"@;
            reveal_strlit("application/x-keepassxc");
            reveal_strlit("application/x-kexi-connectiondata");
            assert(a.take(16) =~= b.take(16));
            lemma_lex_order_common_prefix(a, b, 16);
        },
        271 => {
            let a = "application/x-kexi-connectiondata"@;
            let b = "application/x-kexiproject-sqlite2"@;
            reveal_strlit("application/x-kexi-connectiondata");
            reveal_strlit("application/x-kexiproject-sqlite2");
            assert(a.take(18) =~= b.take(18));
            lemma_lex_order_common_prefix(a, b, 18);
        },
        272 => {
            let a = "application/x-kexiproject-sqlite2"@;
            let b = "application/x-kexiproject-sqlite3"@;
            reveal_strlit("application/x-kexiproject-sqlite2");
            reveal_strlit("application/x-kexiproject-sqlite3");
            assert(a.take(32) =~= b.take(32));
            lemma_lex_order_common_prefix(a, b, 32);
        },
        273 => {
            let a = "application/x-kexiproject-sqlite3"@;
            let b = "application/x-kgetlist"@;
            reveal_strlit("application/x-kexiproject-sqlite3");
            reveal_strlit("application/x-kgetlist");
            assert(a.take(15) =~= b.take(15));
            lemma_lex_order_common_prefix(a, b, 15);
        },
        274 => {
            let a = "application/x-kgetlist"@;
            let b = "application/x-kpresenter"@;
            reveal_strlit("application/x-kgetlist");
            reveal_strlit("application/x-kpresenter");
            assert(a.take(15) =~= b.take(15));
            lemma_lex_order_common_prefix(a, b, 15);
        },
        275 => {
            let a = "application/x-kpresenter"@;
            let b = "application/x-krita"@;
            reveal_strlit("application/x-kpresenter");
            reveal_strlit("application/x-krita");
            assert(a.take(15) =~= b.take(15));
            lemma_lex_order_common_prefix(a, b, 15);
        },
        276 => {
            let a = "application/x-krita"@;
            let b = "application/x-krita-assistant"@;
            reveal_strlit("application/x-krita");
            reveal_strlit("application/x-krita-assistant");
            assert(a.take(19) =~= b.take(19));
            lemma_lex_order_common_prefix(a, b, 19);
        },
        277 => {
            let a = "application/x-krita-assistant"@;
            let b = "application/x-krita-paintoppresent"@;
            reveal_strlit("application/x-krita-assistant");
            reveal_strlit("application/x-krita-paintoppresent");
            assert(a.take(20) =~= b.take(20));
            lemma_lex_order_common_prefix(a, b, 20);
        },
        278 => {
            let a = "application/x-krita-paintoppresent"@;
            let b = "application/x-ktheme"@;
            reveal_strlit("application/x-krita-paintoppresent");
            reveal_strlit("application/x-ktheme");
            assert(a.take(15) =~= b.take(15));
            lemma_lex_order_common_prefix(a, b, 15);
        },
        279 => {
            let a = "application/x-ktheme"@;
            let b = "application/x-lzpdf"@;
            reveal_strlit("application/x-ktheme");
            reveal_strlit("application/x-lzpdf");
            assert(a.take(14) =~= b.take(14));
            lemma_lex_order_common_prefix(a, b, 14);
        },
        _ => {},
    }
}

proof fn lemma_mime_keys_adjacent_280(i: usize)
    requires
        280 <= i < 320,
    ensures
        lex_order(mime_key(i), mime_key((i + 1) as usize)) <= 0,
{
    match i {
        280 => {
            let a = "application/x-lzpdf"@;
            let b = "application/x-mobi8-ebook"@;
            reveal_strlit("application/x-lzpdf");
            reveal_strlit("application/x-mobi8-ebook");
            assert(a.take(14) =~= b.take(14));
            lemma_lex_order_common_prefix(a, b, 14);
        },
        281 => {
            let a = "application/x-mobi8-ebook"@;
            let b = "application/x-mobipocket-ebook"@;
            reveal_strlit("application/x-mobi8-ebook");
            reveal_strlit("application/x-mobipocket-ebook");
            assert(a.take(18) =~= b.take(18));
            lemma_lex_order_common_prefix(a, b, 18);
        },
        282 => {
            let a = "application/x-mobipocket-ebook"@;
            let b = "application/x-model"@;
            reveal_strlit("application/x-mobipocket-ebook");
            reveal_strlit("application/x-model");
            assert(a.take(16) =~= b.take(16));
            lemma_lex_order_common_prefix(a, b, 16);
        },
        283 => {
            let a = "application/x-model"@;
            let b = "application/x-msdownload"@;
            reveal_strlit("application/x-model");
            reveal_strlit("application/x-msdownload");
            assert(a.take(15) =~= b.take(15));
            lemma_lex_order_common_prefix(a, b, 15);
        },
        284 => {
            let a = "application/x-msdownload"@;
            let b = "application/x-musescore4portable"@;
            reveal_strlit("application/x-msdownload");
            reveal_strlit("application/x-musescore4portable");
            assert(a.take(15) =~= b.take(15));
            lemma_lex_order_common_prefix(a, b, 15);
        },
        285 => {
            let a = "application/x-musescore4portable"@;
            let b = "application/x-musescore4portable+xml"@;
            reveal_strlit("application/x-musescore4portable");
            reveal_strlit("application/x-musescore4portable+xml");
            assert(a.take(32) =~= b.take(32));
            lemma_lex_order_common_prefix(a, b, 32);
        },
        286 => {
            let a = "application/x-musescore4portable+xml"@;
            let b = "application/x-nero-burning-rom-image"@;
            reveal_strlit("application/x-musescore4portable+xml");
            reveal_strlit("application/x-nero-burning-rom-image");
            assert(a.take(14) =~= b.take(14));
            lemma_lex_order_common_prefix(a, b, 14);
        },
        287 => {
            let a = "application/x-nero-burning-rom-image"@;
            let b = "application/x-nero-burning-rom-image"@;
            reveal_strlit("application/x-nero-burning-rom-image");
            reveal_strlit("application/x-nero-burning-rom-image");
            lemma_lex_order_basics(a, b);
        },
        288 => {
            let a = "application/x-nero-burning-rom-image"@;
            let b = "application/x-ole-storage"@;
            reveal_strlit("application/x-nero-burning-rom-image");
            reveal_strlit("application/x-ole-storage");
            assert(a.take(14) =~= b.take(14));
            lemma_lex_order_common_prefix(a, b, 14);
        },
        289 => {
            let a = "application/x-ole-storage"@;
            let b = "application/x-osm+xml"@;
            reveal_strlit("application/x-ole-storage");
            reveal_strlit("application/x-osm+xml");
            assert(a.take(15) =~= b.take(15));
            lemma_lex_order_common_prefix(a, b, 15);
        },
        290 => {
            let a = "application/x-osm+xml"@;
            let b = "application/x-pem-key"@;
            reveal_strlit("application/x-osm+xml");
            reveal_strlit("application/x-pem-key");
            assert(a.take(14) =~= b.take(14));
            lemma_lex_order_common_prefix(a, b, 14);
        },
        291 => {
            let a = "application/x-pem-key"@;
            let b = "application/x-perl"@;
            reveal_strlit("application/x-pem-key");
            reveal_strlit("application/x-perl");
            assert(a.take(16) =~= b.take(16));
            lemma_lex_order_common_prefix(a, b, 16);
        },
        292 => {
            let a = "application/x-perl"@;
            let b = "application/x-photoshop"@;
            reveal_strlit("application/x-perl");
            reveal_strlit("application/x-photoshop");
            assert(a.take(15) =~= b.take(15));
            lemma_lex_order_common_prefix(a, b, 15);
        },
        293 => {
            let a = "application/x-photoshop"@;
            let b = "application/x-php"@;
            reveal_strlit("application/x-photoshop");
            reveal_strlit("application/x-php");
            assert(a.take(16) =~= b.take(16));
            lemma_lex_order_common_prefix(a, b, 16);
        },
        294 => {
            let a = "application/x-php"@;
            let b = "application/x-pkcs12"@;
            reveal_strlit("application/x-php");
            reveal_strlit("application/x-pkcs12");
            assert(a.take(15) =~= b.take(15));
            lemma_lex_order_common_prefix(a, b, 15);
        },
        295 => {
            let a = "application/x-pkcs12"@;
            let b = "application/x-pkcs7"@;
            reveal_strlit("application/x-pkcs12");
            reveal_strlit("application/x-pkcs7");
            assert(a.take(18) =~= b.take(18));
            lemma_lex_order_common_prefix(a, b, 18);
        },
        296 => {
            let a = "application/x-pkcs7"@;
            let b = "application/x-pkcs7-certificates"@;
            reveal_strlit("application/x-pkcs7");
            reveal_strlit("application/x-pkcs7-certificates");
            assert(a.take(19) =~= b.take(19));
            lemma_lex_order_common_prefix(a, b, 19);
        },
        297 => {
            let a = "application/x-pkcs7-certificates"@;
            let b = "application/x-ptoptimizer-script"@;
            reveal_strlit("application/x-pkcs7-certificates");
            reveal_strlit("application/x-ptoptimizer-script");
            assert(a.take(15) =~= b.take(15));
            lemma_lex_order_common_prefix(a, b, 15);
        },
        298 => {
            let a = "application/x-ptoptimizer-script"@;
            let b = "application/x-python-bytecode"@;
            reveal_strlit("application/x-ptoptimizer-script");
            reveal_strlit("application/x-python-bytecode");
            assert(a.take(15) =~= b.take(15));
            lemma_lex_order_common_prefix(a, b, 15);
        },
        299 => {
            let a = "application/x-python-bytecode"@;
            let b = "application/x-qgis"@;
            reveal_strlit("application/x-python-bytecode");
            reveal_strlit("application/x-qgis");
            assert(a.take(14) =~= b.take(14));
            lemma_lex_order_common_prefix(a, b, 14);
        },
        300 => {
            let a = "application/x-qgis"@;
            let b = "application/x-qgis-layer"@;
            reveal_strlit("application/x-qgis");
            reveal_strlit("application/x-qgis-layer");
            assert(a.take(18) =~= b.take(18));
            lemma_lex_order_common_prefix(a, b, 18);
        },
        301 => {
            let a = "application/x-qgis-layer"@;
            let b = "application/x-qtractor-archive"@;
            reveal_strlit("application/x-qgis-layer");
            reveal_strlit("application/x-qtractor-archive");
            assert(a.take(15) =~= b.take(15));
            lemma_lex_order_common_prefix(a, b, 15);
        },
        302 => {
            let a = "application/x-qtractor-archive"@;
            let b = "application/x-qtractor-session"@;
            reveal_strlit("application/x-qtractor-archive");
            reveal_strlit("application/x-qtractor-session");
            assert(a.take(23) =~= b.take(23));
            lemma_lex_order_common_prefix(a, b, 23);
        },
        303 => {
            let a = "application/x-qtractor-session"@;
            let b = "application/x-qtractor-template"@;
            reveal_strlit("application/x-qtractor-session");
            reveal_strlit("application/x-qtractor-template");
            assert(a.take(23) =~= b.take(23));
            lemma_lex_order_common_prefix(a, b, 23);
        },
        304 => {
            let a = "application/x-qtractor-template"@;
            let b = "application/x-raw-disk-image"@;
            reveal_strlit("application/x-qtractor-template");
            reveal_strlit("application/x-raw-disk-image");
            assert(a.take(14) =~= b.take(14));
            lemma_lex_order_common_prefix(a, b, 14);
        },
        305 => {
            let a = "application/x-raw-disk-image"@;
            let b = "application/x-raw-disk-image-xz-compressed"@;
            reveal_strlit("application/x-raw-disk-image");
            reveal_strlit("application/x-raw-disk-image-xz-compressed");
            assert(a.take(28) =~= b.take(28));
            lemma_lex_order_common_prefix(a, b, 28);
        },
        306 => {
            let a = "application/x-raw-disk-image-xz-compressed"@;
            let b = "application/x-raw-floppy-disk-image"@;
            reveal_strlit("application/x-raw-disk-image-xz-compressed");
            reveal_strlit("application/x-raw-floppy-disk-image");
            assert(a.take(18) =~= b.take(18));
            lemma_lex_order_common_prefix(a, b, 18);
        },
        307 => {
            let a = "application/x-raw-floppy-disk-image"@;
            let b = "application/x-rdata"@;
            reveal_strlit("application/x-raw-floppy-disk-image");
            reveal_strlit("application/x-rdata");
            assert(a.take(15) =~= b.take(15));
            lemma_lex_order_common_prefix(a, b, 15);
        },
        308 => {
            let a = "application/x-rdata"@;
            let b = "application/x-reaper"@;
            reveal_strlit("application/x-rdata");
            reveal_strlit("application/x-reaper");
            assert(a.take(15) =~= b.take(15));
            lemma_lex_order_common_prefix(a, b, 15);
        },
        309 => {
            let a = "application/x-reaper"@;
            let b = "application/x-reaper-backup"@;
            reveal_strlit("application/x-reaper");
            reveal_strlit("application/x-reaper-backup");
            assert(a.take(20) =~= b.take(20));
            lemma_lex_order_common_prefix(a, b, 20);
        },
        310 => {
            let a = "application/x-reaper-backup"@;
            let b = "application/x-reaper-peak"@;
            reveal_strlit("application/x-reaper-backup");
            reveal_strlit("application/x-reaper-peak");
            assert(a.take(21) =~= b.take(21));
            lemma_lex_order_common_prefix(a, b, 21);
        },
        311 => {
            let a = "application/x-reaper-peak"@;
            let b = "application/x-reaper-template"@;
            reveal_strlit("application/x-reaper-peak");
            reveal_strlit("application/x-reaper-template");
            assert(a.take(21) =~= b.take(21));
            lemma_lex_order_common_prefix(a, b, 21);
        },
        312 => {
            let a = "application/x-reaper-template"@;
            let b = "application/x-reaper-template"@;
            reveal_strlit("application/x-reaper-template");
            reveal_strlit("application/x-reaper-template");
            lemma_lex_order_basics(a, b);
        },
        313 => {
            let a = "application/x-reaper-template"@;
            let b = "application/x-reaper-theme"@;
            reveal_strlit("application/x-reaper-template");
            reveal_strlit("application/x-reaper-theme");
            assert(a.take(22) =~= b.take(22));
            lemma_lex_order_common_prefix(a, b, 22);
        },
        314 => {
            let a = "application/x-reaper-theme"@;
            let b = "application/x-rpm"@;
            reveal_strlit("application/x-reaper-theme");
            reveal_strlit("application/x-rpm");
            assert(a.take(15) =~= b.take(15));
            lemma_lex_order_common_prefix(a, b, 15);
        },
        315 => {
            let a = "application/x-rpm"@;
            let b = "application/x-ruby"@;
            reveal_strlit("application/x-rpm");
            reveal_strlit("application/x-ruby");
            assert(a.take(15) =~= b.take(15));
            lemma_lex_order_common_prefix(a, b, 15);
        },
        316 => {
            let a = "application/x-ruby"@;
            let b = "application/x-shapefile"@;
            reveal_strlit("application/x-ruby");
            reveal_strlit("application/x-shapefile");
            assert(a.take(14) =~= b.take(14));
            lemma_lex_order_common_prefix(a, b, 14);
        },
        317 => {
            let a = "application/x-shapefile"@;
            let b = "application/x-shellscript"@;
            reveal_strlit("application/x-shapefile");
            reveal_strlit("application/x-shellscript");
            assert(a.take(16) =~= b.take(16));
            lemma_lex_order_common_prefix(a, b, 16);
        },
        318 => {
            let a = "application/x-shellscript"@;
            let b = "application/x-source-rpm"@;
            reveal_strlit("application/x-shellscript");
            reveal_strlit("application/x-source-rpm");
            assert(a.take(15) =~= b.take(15));
            lemma_lex_order_common_prefix(a, b, 15);
        },
        319 => {
            let a = "application/x-source-rpm"@;
            let b = "application/x-spectrum"@;
            reveal_strlit("application/x-source-rpm");
            reveal_strlit("application/x-spectrum");
            assert(a.take(15) =~= b.take(15));
            lemma_lex_order_common_prefix(a, b, 15);
        },
        _ => {},
    }
}

proof fn lemma_mime_keys_adjacent_320(i: usize)
    requires
        320 <= i < 360,
    ensures
        lex_order(mime_key(i), mime_key((i + 1) as usize)) <= 0,
{
    match i {
        320 => {
            let a = "application/x-spectrum"@;
            let b = "application/x-spectrum-tzx"@;
            reveal_strlit("application/x-spectrum");
            reveal_strlit("application/x-spectrum-tzx");
            assert(a.take(22) =~= b.take(22));
            lemma_lex_order_common_prefix(a, b, 22);
        },
        321 => {
            let a = "application/x-spectrum-tzx"@;
            let b = "application/x-sqlite2"@;
            reveal_strlit("application/x-spectrum-tzx");
            reveal_strlit("application/x-sqlite2");
            assert(a.take(15) =~= b.take(15));
            lemma_lex_order_common_prefix(a, b, 15);
        },
        322 => {
            let a = "application/x-sqlite2"@;
            let b = "application/x-sqlite3"@;
            reveal_strlit("application/x-sqlite2");
            reveal_strlit("application/x-sqlite3");
            assert(a.take(20) =~= b.take(20));
            lemma_lex_order_common_prefix(a, b, 20);
        },
        323 => {
            let a = "application/x-sqlite3"@;
            let b = "application/x-subrip"@;
            reveal_strlit("application/x-sqlite3");
            reveal_strlit("application/x-subrip");
            assert(a.take(15) =~= b.take(15));
            lemma_lex_order_common_prefix(a, b, 15);
        },
        324 => {
            let a = "application/x-subrip"@;
            let b = "application/x-theme"@;
            reveal_strlit("application/x-subrip");
            reveal_strlit("application/x-theme");
            assert(a.take(14) =~= b.take(14));
            lemma_lex_order_common_prefix(a, b, 14);
        },
        325 => {
            let a = "application/x-theme"@;
            let b = "application/x-typescript"@;
            reveal_strlit("application/x-theme");
            reveal_strlit("application/x-typescript");
            assert(a.take(15) =~= b.take(15));
            lemma_lex_order_common_prefix(a, b, 15);
        },
        326 => {
            let a = "application/x-typescript"@;
            let b = "application/x-virtualbox-hdd"@;
            reveal_strlit("application/x-typescript");
            reveal_strlit("application/x-virtualbox-hdd");
            assert(a.take(14) =~= b.take(14));
            lemma_lex_order_common_prefix(a, b, 14);
        },
        327 => {
            let a = "application/x-virtualbox-hdd"@;
            let b = "application/x-virtualbox-hdd"@;
            reveal_strlit("application/x-virtualbox-hdd");
            reveal_strlit("application/x-virtualbox-hdd");
            lemma_lex_order_basics(a, b);
        },
        328 => {
            let a = "application/x-virtualbox-hdd"@;
            let b = "application/x-virtualbox-ova"@;
            reveal_strlit("application/x-virtualbox-hdd");
            reveal_strlit("application/x-virtualbox-ova");
            assert(a.take(25) =~= b.take(25));
            lemma_lex_order_common_prefix(a, b, 25);
        },
        329 => {
            let a = "application/x-virtualbox-ova"@;
            let b = "application/x-virtualbox-ova"@;
            reveal_strlit("application/x-virtualbox-ova");
            reveal_strlit("application/x-virtualbox-ova");
            lemma_lex_order_basics(a, b);
        },
        330 => {
            let a = "application/x-virtualbox-ova"@;
            let b = "application/x-virtualbox-ovf"@;
            reveal_strlit("application/x-virtualbox-ova");
            reveal_strlit("application/x-virtualbox-ovf");
            assert(a.take(27) =~= b.take(27));
            lemma_lex_order_common_prefix(a, b, 27);
        },
        331 => {
            let a = "application/x-virtualbox-ovf"@;
            let b = "application/x-virtualbox-ovf"@;
            reveal_strlit("application/x-virtualbox-ovf");
            reveal_strlit("application/x-virtualbox-ovf");
            lemma_lex_order_basics(a, b);
        },
        332 => {
            let a = "application/x-virtualbox-ovf"@;
            let b = "application/x-virtualbox-vbox"@;
            reveal_strlit("application/x-virtualbox-ovf");
            reveal_strlit("application/x-virtualbox-vbox");
            assert(a.take(25) =~= b.take(25));
            lemma_lex_order_common_prefix(a, b, 25);
        },
        333 => {
            let a = "application/x-virtualbox-vbox"@;
            let b = "application/x-virtualbox-vbox"@;
            reveal_strlit("application/x-virtualbox-vbox");
            reveal_strlit("application/x-virtualbox-vbox");
            lemma_lex_order_basics(a, b);
        },
        334 => {
            let a = "application/x-virtualbox-vbox"@;
            let b = "application/x-virtualbox-vbox-extpack"@;
            reveal_strlit("application/x-virtualbox-vbox");
            reveal_strlit("application/x-virtualbox-vbox-extpack");
            assert(a.take(29) =~= b.take(29));
            lemma_lex_order_common_prefix(a, b, 29);
        },
        335 => {
            let a = "application/x-virtualbox-vbox-extpack"@;
            let b = "application/x-virtualbox-vbox-extpack"@;
            reveal_strlit("application/x-virtualbox-vbox-extpack");
            reveal_strlit("application/x-virtualbox-vbox-extpack");
            lemma_lex_order_basics(a, b);
        },
        336 => {
            let a = "application/x-virtualbox-vbox-extpack"@;
            let b = "application/x-virtualbox-vdi"@;
            reveal_strlit("application/x-virtualbox-vbox-extpack");
            reveal_strlit("application/x-virtualbox-vdi");
            assert(a.take(26) =~= b.take(26));
            lemma_lex_order_common_prefix(a, b, 26);
        },
        337 => {
            let a = "application/x-virtualbox-vdi"@;
            let b = "application/x-virtualbox-vdi"@;
            reveal_strlit("application/x-virtualbox-vdi");
            reveal_strlit("application/x-virtualbox-vdi");
            lemma_lex_order_basics(a, b);
        },
        338 => {
            let a = "application/x-virtualbox-vdi"@;
            let b = "application/x-virtualbox-vhd"@;
            reveal_strlit("application/x-virtualbox-vdi");
            reveal_strlit("application/x-virtualbox-vhd");
            assert(a.take(26) =~= b.take(26));
            lemma_lex_order_common_prefix(a, b, 26);
        },
        339 => {
            let a = "application/x-virtualbox-vhd"@;
            let b = "application/x-virtualbox-vhd"@;
            reveal_strlit("application/x-virtualbox-vhd");
            reveal_strlit("application/x-virtualbox-vhd");
            lemma_lex_order_basics(a, b);
        },
        340 => {
            let a = "application/x-virtualbox-vhd"@;
            let b = "application/x-virtualbox-vmdk"@;
            reveal_strlit("application/x-virtualbox-vhd");
            reveal_strlit("application/x-virtualbox-vmdk");
            assert(a.take(26) =~= b.take(26));
            lemma_lex_order_common_prefix(a, b, 26);
        },
        341 => {
            let a = "application/x-virtualbox-vmdk"@;
            let b = "application/x-virtualbox-vmdk"@;
            reveal_strlit("application/x-virtualbox-vmdk");
            reveal_strlit("application/x-virtualbox-vmdk");
            lemma_lex_order_basics(a, b);
        },
        342 => {
            let a = "application/x-virtualbox-vmdk"@;
            let b = "application/x-windows-themepack"@;
            reveal_strlit("application/x-virtualbox-vmdk");
            reveal_strlit("application/x-windows-themepack");
            assert(a.take(14) =~= b.take(14));
            lemma_lex_order_common_prefix(a, b, 14);
        },
        343 => {
            let a = "application/x-windows-themepack"@;
            let b = "application/x-x509-ca-cert"@;
            reveal_strlit("application/x-windows-themepack");
            reveal_strlit("application/x-x509-ca-cert");
            assert(a.take(14) =~= b.take(14));
            lemma_lex_order_common_prefix(a, b, 14);
        },
        344 => {
            let a = "application/x-x509-ca-cert"@;
            let b = "application/x-x509-user-cert"@;
            reveal_strlit("application/x-x509-ca-cert");
            reveal_strlit("application/x-x509-user-cert");
            assert(a.take(19) =~= b.take(19));
            lemma_lex_order_common_prefix(a, b, 19);
        },
        345 => {
            let a = "application/x-x509-user-cert"@;
            let b = "application/x-xopp"@;
            reveal_strlit("application/x-x509-user-cert");
            reveal_strlit("application/x-xopp");
            assert(a.take(15) =~= b.take(15));
            lemma_lex_order_common_prefix(a, b, 15);
        },
        346 => {
            let a = "application/x-xopp"@;
            let b = "application/x-xopp"@;
            reveal_strlit("application/x-xopp");
            reveal_strlit("application/x-xopp");
            lemma_lex_order_basics(a, b);
        },
        347 => {
            let a = "application/x-xopp"@;
            let b = "application/x-xopt"@;
            reveal_strlit("application/x-xopp");
            reveal_strlit("application/x-xopt");
            assert(a.take(17) =~= b.take(17));
            lemma_lex_order_common_prefix(a, b, 17);
        },
        348 => {
            let a = "application/x-xopt"@;
            let b = "application/x-xopt"@;
            reveal_strlit("application/x-xopt");
            reveal_strlit("application/x-xopt");
            lemma_lex_order_basics(a, b);
        },
        349 => {
            let a = "application/x-xopt"@;
            let b = "application/x-xzpdf"@;
            reveal_strlit("application/x-xopt");
            reveal_strlit("application/x-xzpdf");
            assert(a.take(15) =~= b.take(15));
            lemma_lex_order_common_prefix(a, b, 15);
        },
        350 => {
            let a = "application/x-xzpdf"@;
            let b = "application/x-yaml"@;
            reveal_strlit("application/x-xzpdf");
            reveal_strlit("application/x-yaml");
            assert(a.take(14) =~= b.take(14));
            lemma_lex_order_common_prefix(a, b, 14);
        },
        351 => {
            let a = "application/x-yaml"@;
            let b = "application/x-zim"@;
            reveal_strlit("application/x-yaml");
            reveal_strlit("application/x-zim");
            assert(a.take(14) =~= b.take(14));
            lemma_lex_order_common_prefix(a, b, 14);
        },
        352 => {
            let a = "application/x-zim"@;
            let b = "application/x-zip-compressed-fb2"@;
            reveal_strlit("application/x-zim");
            reveal_strlit("application/x-zip-compressed-fb2");
            assert(a.take(16) =~= b.take(16));
            lemma_lex_order_common_prefix(a, b, 16);
        },
        353 => {
            let a = "application/x-zip-compressed-fb2"@;
            let b = "application/xml"@;
            reveal_strlit("application/x-zip-compressed-fb2");
            reveal_strlit("application/xml");
            assert(a.take(13) =~= b.take(13));
            lemma_lex_order_common_prefix(a, b, 13);
        },
        354 => {
            let a = "application/xml"@;
            let b = "application/xslt+xml"@;
            reveal_strlit("application/xml");
            reveal_strlit("application/xslt+xml");
            assert(a.take(13) =~= b.take(13));
            lemma_lex_order_common_prefix(a, b, 13);
        },
        355 => {
            let a = "application/xslt+xml"@;
            let b = "application/yaml"@;
            reveal_strlit("application/xslt+xml");
            reveal_strlit("application/yaml");
            assert(a.take(12) =~= b.take(12));
            lemma_lex_order_common_prefix(a, b, 12);
        },
        356 => {
            let a = "application/yaml"@;
            let b = "audio/x-dawproject"@;
            reveal_strlit("application/yaml");
            reveal_strlit("audio/x-dawproject");
            assert(a.take(1) =~= b.take(1));
            lemma_lex_order_common_prefix(a, b, 1);
        },
        357 => {
            let a = "audio/x-dawproject"@;
            let b = "chemical/x-cache"@;
            reveal_strlit("audio/x-dawproject");
            reveal_strlit("chemical/x-cache");
            assert(a.take(0) =~= b.take(0));
            lemma_lex_order_common_prefix(a, b, 0);
        },
        358 => {
            let a = "chemical/x-cache"@;
            let b = "image/vnd.adobe.photoshop"@;
            reveal_strlit("chemical/x-cache");
            reveal_strlit("image/vnd.adobe.photoshop");
            assert(a.take(0) =~= b.take(0));
            lemma_lex_order_common_prefix(a, b, 0);
        },
        359 => {
            let a = "image/vnd.adobe.photoshop"@;
            let b = "image/vnd.djvu"@;
            reveal_strlit("image/vnd.adobe.photoshop");
            reveal_strlit("image/vnd.djvu");
            assert(a.take(10) =~= b.take(10));
            lemma_lex_order_common_prefix(a, b, 10);
        },
        _ => {},
    }
}

proof fn lemma_mime_keys_adjacent_360(i: usize)
    requires
        360 <= i < 400,
    ensures
        lex_order(mime_key(i), mime_key((i + 1) as usize)) <= 0,
{
    match i {
        360 => {
            let a = "image/vnd.djvu"@;
            let b = "image/vnd.djvu+multipage"@;
            reveal_strlit("image/vnd.djvu");
            reveal_strlit("image/vnd.djvu+multipage");
            assert(a.take(14) =~= b.take(14));
            lemma_lex_order_common_prefix(a, b, 14);
        },
        361 => {
            let a = "image/vnd.djvu+multipage"@;
            let b = "image/vnd.dxf"@;
            reveal_strlit("image/vnd.djvu+multipage");
            reveal_strlit("image/vnd.dxf");
            assert(a.take(11) =~= b.take(11));
            lemma_lex_order_common_prefix(a, b, 11);
        },
        362 => {
            let a = "image/vnd.dxf"@;
            let b = "image/x-djvu"@;
            reveal_strlit("image/vnd.dxf");
            reveal_strlit("image/x-djvu");
            assert(a.take(6) =~= b.take(6));
            lemma_lex_order_common_prefix(a, b, 6);
        },
        363 => {
            let a = "image/x-djvu"@;
            let b = "image/x-generic"@;
            reveal_strlit("image/x-djvu");
            reveal_strlit("image/x-generic");
            assert(a.take(8) =~= b.take(8));
            lemma_lex_order_common_prefix(a, b, 8);
        },
        364 => {
            let a = "image/x-generic"@;
            let b = "image/x-krita"@;
            reveal_strlit("image/x-generic");
            reveal_strlit("image/x-krita");
            assert(a.take(8) =~= b.take(8));
            lemma_lex_order_common_prefix(a, b, 8);
        },
        365 => {
            let a = "image/x-krita"@;
            let b = "image/x-photoshop"@;
            reveal_strlit("image/x-krita");
            reveal_strlit("image/x-photoshop");
            assert(a.take(8) =~= b.take(8));
            lemma_lex_order_common_prefix(a, b, 8);
        },
        366 => {
            let a = "image/x-photoshop"@;
            let b = "inode/symlink"@;
            reveal_strlit("image/x-photoshop");
            reveal_strlit("inode/symlink");
            assert(a.take(1) =~= b.take(1));
            lemma_lex_order_common_prefix(a, b, 1);
        },
        367 => {
            let a = "inode/symlink"@;
            let b = "model/obj"@;
            reveal_strlit("inode/symlink");
            reveal_strlit("model/obj");
            assert(a.take(0) =~= b.take(0));
            lemma_lex_order_common_prefix(a, b, 0);
        },
        368 => {
            let a = "model/obj"@;
            let b = "model/stl"@;
            reveal_strlit("model/obj");
            reveal_strlit("model/stl");
            assert(a.take(6) =~= b.take(6));
            lemma_lex_order_common_prefix(a, b, 6);
        },
        369 => {
            let a = "model/stl"@;
            let b = "model/x-stl-binary"@;
            reveal_strlit("model/stl");
            reveal_strlit("model/x-stl-binary");
            assert(a.take(6) =~= b.take(6));
            lemma_lex_order_common_prefix(a, b, 6);
        },
        370 => {
            let a = "model/x-stl-binary"@;
            let b = "model/x.stl-ascii"@;
            reveal_strlit("model/x-stl-binary");
            reveal_strlit("model/x.stl-ascii");
            assert(a.take(7) =~= b.take(7));
            lemma_lex_order_common_prefix(a, b, 7);
        },
        371 => {
            let a = "model/x.stl-ascii"@;
            let b = "model/x.stl-binary"@;
            reveal_strlit("model/x.stl-ascii");
            reveal_strlit("model/x.stl-binary");
            assert(a.take(12) =~= b.take(12));
            lemma_lex_order_common_prefix(a, b, 12);
        },
        372 => {
            let a = "model/x.stl-binary"@;
            let b = "multipart/encrypted"@;
            reveal_strlit("model/x.stl-binary");
            reveal_strlit("multipart/encrypted");
            assert(a.take(1) =~= b.take(1));
            lemma_lex_order_common_prefix(a, b, 1);
        },
        373 => {
            let a = "multipart/encrypted"@;
            let b = "multipart/signed"@;
            reveal_strlit("multipart/encrypted");
            reveal_strlit("multipart/signed");
            assert(a.take(10) =~= b.take(10));
            lemma_lex_order_common_prefix(a, b, 10);
        },
        374 => {
            let a = "multipart/signed"@;
            let b = "text/arduino"@;
            reveal_strlit("multipart/signed");
            reveal_strlit("text/arduino");
            assert(a.take(0) =~= b.take(0));
            lemma_lex_order_common_prefix(a, b, 0);
        },
        375 => {
            let a = "text/arduino"@;
            let b = "text/asciidoc"@;
            reveal_strlit("text/arduino");
            reveal_strlit("text/asciidoc");
            assert(a.take(6) =~= b.take(6));
            lemma_lex_order_common_prefix(a, b, 6);
        },
        376 => {
            let a = "text/asciidoc"@;
            let b = "text/coffeescript"@;
            reveal_strlit("text/asciidoc");
            reveal_strlit("text/coffeescript");
            assert(a.take(5) =~= b.take(5));
            lemma_lex_order_common_prefix(a, b, 5);
        },
        377 => {
            let a = "text/coffeescript"@;
            let b = "text/css"@;
            reveal_strlit("text/coffeescript");
            reveal_strlit("text/css");
            assert(a.take(6) =~= b.take(6));
            lemma_lex_order_common_prefix(a, b, 6);
        },
        378 => {
            let a = "text/css"@;
            let b = "text/csv"@;
            reveal_strlit("text/css");
            reveal_strlit("text/csv");
            assert(a.take(7) =~= b.take(7));
            lemma_lex_order_common_prefix(a, b, 7);
        },
        379 => {
            let a = "text/csv"@;
            let b = "text/csv-schema"@;
            reveal_strlit("text/csv");
            reveal_strlit("text/csv-schema");
            assert(a.take(8) =~= b.take(8));
            lemma_lex_order_common_prefix(a, b, 8);
        },
        380 => {
            let a = "text/csv-schema"@;
            let b = "text/fsharp"@;
            reveal_strlit("text/csv-schema");
            reveal_strlit("text/fsharp");
            assert(a.take(5) =~= b.take(5));
            lemma_lex_order_common_prefix(a, b, 5);
        },
        381 => {
            let a = "text/fsharp"@;
            let b = "text/javascript"@;
            reveal_strlit("text/fsharp");
            reveal_strlit("text/javascript");
            assert(a.take(5) =~= b.take(5));
            lemma_lex_order_common_prefix(a, b, 5);
        },
        382 => {
            let a = "text/javascript"@;
            let b = "text/json"@;
            reveal_strlit("text/javascript");
            reveal_strlit("text/json");
            assert(a.take(6) =~= b.take(6));
            lemma_lex_order_common_prefix(a, b, 6);
        },
        383 => {
            let a = "text/json"@;
            let b = "text/less"@;
            reveal_strlit("text/json");
            reveal_strlit("text/less");
            assert(a.take(5) =~= b.take(5));
            lemma_lex_order_common_prefix(a, b, 5);
        },
        384 => {
            let a = "text/less"@;
            let b = "text/markdown"@;
            reveal_strlit("text/less");
            reveal_strlit("text/markdown");
            assert(a.take(5) =~= b.take(5));
            lemma_lex_order_common_prefix(a, b, 5);
        },
        385 => {
            let a = "text/markdown"@;
            let b = "text/pureDataPatch"@;
            reveal_strlit("text/markdown");
            reveal_strlit("text/pureDataPatch");
            assert(a.take(5) =~= b.take(5));
            lemma_lex_order_common_prefix(a, b, 5);
        },
        386 => {
            let a = "text/pureDataPatch"@;
            let b = "text/rdf+xml"@;
            reveal_strlit("text/pureDataPatch");
            reveal_strlit("text/rdf+xml");
            assert(a.take(5) =~= b.take(5));
            lemma_lex_order_common_prefix(a, b, 5);
        },
        387 => {
            let a = "text/rdf+xml"@;
            let b = "text/ruby"@;
            reveal_strlit("text/rdf+xml");
            reveal_strlit("text/ruby");
            assert(a.take(6) =~= b.take(6));
            lemma_lex_order_common_prefix(a, b, 6);
        },
        388 => {
            let a = "text/ruby"@;
            let b = "text/rust"@;
            reveal_strlit("text/ruby");
            reveal_strlit("text/rust");
            assert(a.take(7) =~= b.take(7));
            lemma_lex_order_common_prefix(a, b, 7);
        },
        389 => {
            let a = "text/rust"@;
            let b = "text/spreadsheet"@;
            reveal_strlit("text/rust");
            reveal_strlit("text/spreadsheet");
            assert(a.take(5) =~= b.take(5));
            lemma_lex_order_common_prefix(a, b, 5);
        },
        390 => {
            let a = "text/spreadsheet"@;
            let b = "text/tab-separated-values"@;
            reveal_strlit("text/spreadsheet");
            reveal_strlit("text/tab-separated-values");
            assert(a.take(5) =~= b.take(5));
            lemma_lex_order_common_prefix(a, b, 5);
        },
        391 => {
            let a = "text/tab-separated-values"@;
            let b = "text/vtt"@;
            reveal_strlit("text/tab-separated-values");
            reveal_strlit("text/vtt");
            assert(a.take(5) =~= b.take(5));
            lemma_lex_order_common_prefix(a, b, 5);
        },
        392 => {
            let a = "text/vtt"@;
            let b = "text/x-R"@;
            reveal_strlit("text/vtt");
            reveal_strlit("text/x-R");
            assert(a.take(5) =~= b.take(5));
            lemma_lex_order_common_prefix(a, b, 5);
        },
        393 => {
            let a = "text/x-R"@;
            let b = "text/x-arduino"@;
            reveal_strlit("text/x-R");
            reveal_strlit("text/x-arduino");
            assert(a.take(7) =~= b.take(7));
            lemma_lex_order_common_prefix(a, b, 7);
        },
        394 => {
            let a = "text/x-arduino"@;
            let b = "text/x-ass"@;
            reveal_strlit("text/x-arduino");
            reveal_strlit("text/x-ass");
            assert(a.take(8) =~= b.take(8));
            lemma_lex_order_common_prefix(a, b, 8);
        },
        395 => {
            let a = "text/x-ass"@;
            let b = "text/x-bibtex"@;
            reveal_strlit("text/x-ass");
            reveal_strlit("text/x-bibtex");
            assert(a.take(7) =~= b.take(7));
            lemma_lex_order_common_prefix(a, b, 7);
        },
        396 => {
            let a = "text/x-bibtex"@;
            let b = "text/x-c"@;
            reveal_strlit("text/x-bibtex");
            reveal_strlit("text/x-c");
            assert(a.take(7) =~= b.take(7));
            lemma_lex_order_common_prefix(a, b, 7);
        },
        397 => {
            let a = "text/x-c"@;
            let b = "text/x-c++"@;
            reveal_strlit("text/x-c");
            reveal_strlit("text/x-c++");
            assert(a.take(8) =~= b.take(8));
            lemma_lex_order_common_prefix(a, b, 8);
        },
        398 => {
            let a = "text/x-c++"@;
            let b = "text/x-c++hdr"@;
            reveal_strlit("text/x-c++");
            reveal_strlit("text/x-c++hdr");
            assert(a.take(10) =~= b.take(10));
            lemma_lex_order_common_prefix(a, b, 10);
        },
        399 => {
            let a = "text/x-c++hdr"@;
            let b = "text/x-c++src"@;
            reveal_strlit("text/x-c++hdr");
            reveal_strlit("text/x-c++src");
            assert(a.take(10) =~= b.take(10));
            lemma_lex_order_common_prefix(a, b, 10);
        },
        _ => {},
    }
}

proof fn lemma_mime_keys_adjacent_400(i: usize)
    requires
        400 <= i < 440,
    ensures
        lex_order(mime_key(i), mime_key((i + 1) as usize)) <= 0,
{
    match i {
        400 => {
            let a = "text/x-c++src"@;
            let b = "text/x-chdr"@;
            reveal_strlit("text/x-c++src");
            reveal_strlit("text/x-chdr");
            assert(a.take(8) =~= b.take(8));
            lemma_lex_order_common_prefix(a, b, 8);
        },
        401 => {
            let a = "text/x-chdr"@;
            let b = "text/x-clojure"@;
            reveal_strlit("text/x-chdr");
            reveal_strlit("text/x-clojure");
            assert(a.take(8) =~= b.take(8));
            lemma_lex_order_common_prefix(a, b, 8);
        },
        402 => {
            let a = "text/x-clojure"@;
            let b = "text/x-clojurescript"@;
            reveal_strlit("text/x-clojure");
            reveal_strlit("text/x-clojurescript");
            assert(a.take(14) =~= b.take(14));
            lemma_lex_order_common_prefix(a, b, 14);
        },
        403 => {
            let a = "text/x-clojurescript"@;
            let b = "text/x-cmake"@;
            reveal_strlit("text/x-clojurescript");
            reveal_strlit("text/x-cmake");
            assert(a.take(8) =~= b.take(8));
            lemma_lex_order_common_prefix(a, b, 8);
        },
        404 => {
            let a = "text/x-cmake"@;
            let b = "text/x-cobol"@;
            reveal_strlit("text/x-cmake");
            reveal_strlit("text/x-cobol");
            assert(a.take(8) =~= b.take(8));
            lemma_lex_order_common_prefix(a, b, 8);
        },
        405 => {
            let a = "text/x-cobol"@;
            let b = "text/x-coffeescript"@;
            reveal_strlit("text/x-cobol");
            reveal_strlit("text/x-coffeescript");
            assert(a.take(9) =~= b.take(9));
            lemma_lex_order_common_prefix(a, b, 9);
        },
        406 => {
            let a = "text/x-coffeescript"@;
            let b = "text/x-common-lisp"@;
            reveal_strlit("text/x-coffeescript");
            reveal_strlit("text/x-common-lisp");
            assert(a.take(9) =~= b.take(9));
            lemma_lex_order_common_prefix(a, b, 9);
        },
        407 => {
            let a = "text/x-common-lisp"@;
            let b = "text/x-cpp"@;
            reveal_strlit("text/x-common-lisp");
            reveal_strlit("text/x-cpp");
            assert(a.take(8) =~= b.take(8));
            lemma_lex_order_common_prefix(a, b, 8);
        },
        408 => {
            let a = "text/x-cpp"@;
            let b = "text/x-cpphdr"@;
            reveal_strlit("text/x-cpp");
            reveal_strlit("text/x-cpphdr");
            assert(a.take(10) =~= b.take(10));
            lemma_lex_order_common_prefix(a, b, 10);
        },
        409 => {
            let a = "text/x-cpphdr"@;
            let b = "text/x-cppsrc"@;
            reveal_strlit("text/x-cpphdr");
            reveal_strlit("text/x-cppsrc");
            assert(a.take(10) =~= b.take(10));
            lemma_lex_order_common_prefix(a, b, 10);
        },
        410 => {
            let a = "text/x-cppsrc"@;
            let b = "text/x-csharp"@;
            reveal_strlit("text/x-cppsrc");
            reveal_strlit("text/x-csharp");
            assert(a.take(8) =~= b.take(8));
            lemma_lex_order_common_prefix(a, b, 8);
        },
        411 => {
            let a = "text/x-csharp"@;
            let b = "text/x-csrc"@;
            reveal_strlit("text/x-csharp");
            reveal_strlit("text/x-csrc");
            assert(a.take(9) =~= b.take(9));
            lemma_lex_order_common_prefix(a, b, 9);
        },
        412 => {
            let a = "text/x-csrc"@;
            let b = "text/x-css"@;
            reveal_strlit("text/x-csrc");
            reveal_strlit("text/x-css");
            assert(a.take(9) =~= b.take(9));
            lemma_lex_order_common_prefix(a, b, 9);
        },
        413 => {
            let a = "text/x-css"@;
            let b = "text/x-emacs-lisp"@;
            reveal_strlit("text/x-css");
            reveal_strlit("text/x-emacs-lisp");
            assert(a.take(7) =~= b.take(7));
            lemma_lex_order_common_prefix(a, b, 7);
        },
        414 => {
            let a = "text/x-emacs-lisp"@;
            let b = "text/x-fsharp"@;
            reveal_strlit("text/x-emacs-lisp");
            reveal_strlit("text/x-fsharp");
            assert(a.take(7) =~= b.take(7));
            lemma_lex_order_common_prefix(a, b, 7);
        },
        415 => {
            let a = "text/x-fsharp"@;
            let b = "text/x-generic"@;
            reveal_strlit("text/x-fsharp");
            reveal_strlit("text/x-generic");
            assert(a.take(7) =~= b.take(7));
            lemma_lex_order_common_prefix(a, b, 7);
        },
        416 => {
            let a = "text/x-generic"@;
            let b = "text/x-gettext-translation"@;
            reveal_strlit("text/x-generic");
            reveal_strlit("text/x-gettext-translation");
            assert(a.take(9) =~= b.take(9));
            lemma_lex_order_common_prefix(a, b, 9);
        },
        417 => {
            let a = "text/x-gettext-translation"@;
            let b = "text/x-gettext-translation-template"@;
            reveal_strlit("text/x-gettext-translation");
            reveal_strlit("text/x-gettext-translation-template");
            assert(a.take(26) =~= b.take(26));
            lemma_lex_order_common_prefix(a, b, 26);
        },
        418 => {
            let a = "text/x-gettext-translation-template"@;
            let b = "text/x-go"@;
            reveal_strlit("text/x-gettext-translation-template");
            reveal_strlit("text/x-go");
            assert(a.take(8) =~= b.take(8));
            lemma_lex_order_common_prefix(a, b, 8);
        },
        419 => {
            let a = "text/x-go"@;
            let b = "text/x-gradle"@;
            reveal_strlit("text/x-go");
            reveal_strlit("text/x-gradle");
            assert(a.take(8) =~= b.take(8));
            lemma_lex_order_common_prefix(a, b, 8);
        },
        420 => {
            let a = "text/x-gradle"@;
            let b = "text/x-gradle-kotlin"@;
            reveal_strlit("text/x-gradle");
            reveal_strlit("text/x-gradle-kotlin");
            assert(a.take(13) =~= b.take(13));
            lemma_lex_order_common_prefix(a, b, 13);
        },
        421 => {
            let a = "text/x-gradle-kotlin"@;
            let b = "text/x-hex"@;
            reveal_strlit("text/x-gradle-kotlin");
            reveal_strlit("text/x-hex");
            assert(a.take(7) =~= b.take(7));
            lemma_lex_order_common_prefix(a, b, 7);
        },
        422 => {
            let a = "text/x-hex"@;
            let b = "text/x-java"@;
            reveal_strlit("text/x-hex");
            reveal_strlit("text/x-java");
            assert(a.take(7) =~= b.take(7));
            lemma_lex_order_common_prefix(a, b, 7);
        },
        423 => {
            let a = "text/x-java"@;
            let b = "text/x-java-source"@;
            reveal_strlit("text/x-java");
            reveal_strlit("text/x-java-source");
            assert(a.take(11) =~= b.take(11));
            lemma_lex_order_common_prefix(a, b, 11);
        },
        424 => {
            let a = "text/x-java-source"@;
            let b = "text/x-javascript"@;
            reveal_strlit("text/x-java-source");
            reveal_strlit("text/x-javascript");
            assert(a.take(11) =~= b.take(11));
            lemma_lex_order_common_prefix(a, b, 11);
        },
        425 => {
            let a = "text/x-javascript"@;
            let b = "text/x-julia"@;
            reveal_strlit("text/x-javascript");
            reveal_strlit("text/x-julia");
            assert(a.take(8) =~= b.take(8));
            lemma_lex_order_common_prefix(a, b, 8);
        },
        426 => {
            let a = "text/x-julia"@;
            let b = "text/x-kotlin"@;
            reveal_strlit("text/x-julia");
            reveal_strlit("text/x-kotlin");
            assert(a.take(7) =~= b.take(7));
            lemma_lex_order_common_prefix(a, b, 7);
        },
        427 => {
            let a = "text/x-kotlin"@;
            let b = "text/x-less"@;
            reveal_strlit("text/x-kotlin");
            reveal_strlit("text/x-less");
            assert(a.take(7) =~= b.take(7));
            lemma_lex_order_common_prefix(a, b, 7);
        },
        428 => {
            let a = "text/x-less"@;
            let b = "text/x-log"@;
            reveal_strlit("text/x-less");
            reveal_strlit("text/x-log");
            assert(a.take(8) =~= b.take(8));
            lemma_lex_order_common_prefix(a, b, 8);
        },
        429 => {
            let a = "text/x-log"@;
            let b = "text/x-lua"@;
            reveal_strlit("text/x-log");
            reveal_strlit("text/x-lua");
            assert(a.take(8) =~= b.take(8));
            lemma_lex_order_common_prefix(a, b, 8);
        },
        430 => {
            let a = "text/x-lua"@;
            let b = "text/x-makefile"@;
            reveal_strlit("text/x-lua");
            reveal_strlit("text/x-makefile");
            assert(a.take(7) =~= b.take(7));
            lemma_lex_order_common_prefix(a, b, 7);
        },
        431 => {
            let a = "text/x-makefile"@;
            let b = "text/x-makefile"@;
            reveal_strlit("text/x-makefile");
            reveal_strlit("text/x-makefile");
            lemma_lex_order_basics(a, b);
        },
        432 => {
            let a = "text/x-makefile"@;
            let b = "text/x-markdown"@;
            reveal_strlit("text/x-makefile");
            reveal_strlit("text/x-markdown");
            assert(a.take(9) =~= b.take(9));
            lemma_lex_order_common_prefix(a, b, 9);
        },
        433 => {
            let a = "text/x-markdown"@;
            let b = "text/x-maxima-out"@;
            reveal_strlit("text/x-markdown");
            reveal_strlit("text/x-maxima-out");
            assert(a.take(9) =~= b.take(9));
            lemma_lex_order_common_prefix(a, b, 9);
        },
        434 => {
            let a = "text/x-maxima-out"@;
            let b = "text/x-maximasession"@;
            reveal_strlit("text/x-maxima-out");
            reveal_strlit("text/x-maximasession");
            assert(a.take(13) =~= b.take(13));
            lemma_lex_order_common_prefix(a, b, 13);
        },
        435 => {
            let a = "text/x-maximasession"@;
            let b = "text/x-meson"@;
            reveal_strlit("text/x-maximasession");
            reveal_strlit("text/x-meson");
            assert(a.take(8) =~= b.take(8));
            lemma_lex_order_common_prefix(a, b, 8);
        },
        436 => {
            let a = "text/x-meson"@;
            let b = "text/x-ocaml"@;
            reveal_strlit("text/x-meson");
            reveal_strlit("text/x-ocaml");
            assert(a.take(7) =~= b.take(7));
            lemma_lex_order_common_prefix(a, b, 7);
        },
        437 => {
            let a = "text/x-ocaml"@;
            let b = "text/x-octave"@;
            reveal_strlit("text/x-ocaml");
            reveal_strlit("text/x-octave");
            assert(a.take(9) =~= b.take(9));
            lemma_lex_order_common_prefix(a, b, 9);
        },
        438 => {
            let a = "text/x-octave"@;
            let b = "text/x-patch"@;
            reveal_strlit("text/x-octave");
            reveal_strlit("text/x-patch");
            assert(a.take(7) =~= b.take(7));
            lemma_lex_order_common_prefix(a, b, 7);
        },
        439 => {
            let a = "text/x-patch"@;
            let b = "text/x-php"@;
            reveal_strlit("text/x-patch");
            reveal_strlit("text/x-php");
            assert(a.take(8) =~= b.take(8));
            lemma_lex_order_common_prefix(a, b, 8);
        },
        _ => {},
    }
}

proof fn lemma_mime_keys_adjacent_440(i: usize)
    requires
        440 <= i < 465,
    ensures
        lex_order(mime_key(i), mime_key((i + 1) as usize)) <= 0,
{
    match i {
        440 => {
            let a = "text/x-php"@;
            let b = "text/x-pkgbuild"@;
            reveal_strlit("text/x-php");
            reveal_strlit("text/x-pkgbuild");
            assert(a.take(8) =~= b.take(8));
            lemma_lex_order_common_prefix(a, b, 8);
        },
        441 => {
            let a = "text/x-pkgbuild"@;
            let b = "text/x-preview"@;
            reveal_strlit("text/x-pkgbuild");
            reveal_strlit("text/x-preview");
            assert(a.take(8) =~= b.take(8));
            lemma_lex_order_common_prefix(a, b, 8);
        },
        442 => {
            let a = "text/x-preview"@;
            let b = "text/x-python"@;
            reveal_strlit("text/x-preview");
            reveal_strlit("text/x-python");
            assert(a.take(8) =~= b.take(8));
            lemma_lex_order_common_prefix(a, b, 8);
        },
        443 => {
            let a = "text/x-python"@;
            let b = "text/x-python3"@;
            reveal_strlit("text/x-python");
            reveal_strlit("text/x-python3");
            assert(a.take(13) =~= b.take(13));
            lemma_lex_order_common_prefix(a, b, 13);
        },
        444 => {
            let a = "text/x-python3"@;
            let b = "text/x-r"@;
            reveal_strlit("text/x-python3");
            reveal_strlit("text/x-r");
            assert(a.take(7) =~= b.take(7));
            lemma_lex_order_common_prefix(a, b, 7);
        },
        445 => {
            let a = "text/x-r"@;
            let b = "text/x-r-markdown"@;
            reveal_strlit("text/x-r");
            reveal_strlit("text/x-r-markdown");
            assert(a.take(8) =~= b.take(8));
            lemma_lex_order_common_prefix(a, b, 8);
        },
        446 => {
            let a = "text/x-r-markdown"@;
            let b = "text/x-r-source"@;
            reveal_strlit("text/x-r-markdown");
            reveal_strlit("text/x-r-source");
            assert(a.take(9) =~= b.take(9));
            lemma_lex_order_common_prefix(a, b, 9);
        },
        447 => {
            let a = "text/x-r-source"@;
            let b = "text/x-ruby"@;
            reveal_strlit("text/x-r-source");
            reveal_strlit("text/x-ruby");
            assert(a.take(8) =~= b.take(8));
            lemma_lex_order_common_prefix(a, b, 8);
        },
        448 => {
            let a = "text/x-ruby"@;
            let b = "text/x-sass"@;
            reveal_strlit("text/x-ruby");
            reveal_strlit("text/x-sass");
            assert(a.take(7) =~= b.take(7));
            lemma_lex_order_common_prefix(a, b, 7);
        },
        449 => {
            let a = "text/x-sass"@;
            let b = "text/x-script"@;
            reveal_strlit("text/x-sass");
            reveal_strlit("text/x-script");
            assert(a.take(8) =~= b.take(8));
            lemma_lex_order_common_prefix(a, b, 8);
        },
        450 => {
            let a = "text/x-script"@;
            let b = "text/x-scss"@;
            reveal_strlit("text/x-script");
            reveal_strlit("text/x-scss");
            assert(a.take(9) =~= b.take(9));
            lemma_lex_order_common_prefix(a, b, 9);
        },
        451 => {
            let a = "text/x-scss"@;
            let b = "text/x-sql"@;
            reveal_strlit("text/x-scss");
            reveal_strlit("text/x-sql");
            assert(a.take(8) =~= b.take(8));
            lemma_lex_order_common_prefix(a, b, 8);
        },
        452 => {
            let a = "text/x-sql"@;
            let b = "text/x-ssa"@;
            reveal_strlit("text/x-sql");
            reveal_strlit("text/x-ssa");
            assert(a.take(8) =~= b.take(8));
            lemma_lex_order_common_prefix(a, b, 8);
        },
        453 => {
            let a = "text/x-ssa"@;
            let b = "text/x-stex"@;
            reveal_strlit("text/x-ssa");
            reveal_strlit("text/x-stex");
            assert(a.take(8) =~= b.take(8));
            lemma_lex_order_common_prefix(a, b, 8);
        },
        454 => {
            let a = "text/x-stex"@;
            let b = "text/x-tex"@;
            reveal_strlit("text/x-stex");
            reveal_strlit("text/x-tex");
            assert(a.take(7) =~= b.take(7));
            lemma_lex_order_common_prefix(a, b, 7);
        },
        455 => {
            let a = "text/x-tex"@;
            let b = "text/x-texinfo"@;
            reveal_strlit("text/x-tex");
            reveal_strlit("text/x-texinfo");
            assert(a.take(10) =~= b.take(10));
            lemma_lex_order_common_prefix(a, b, 10);
        },
        456 => {
            let a = "text/x-texinfo"@;
            let b = "text/x-typescript"@;
            reveal_strlit("text/x-texinfo");
            reveal_strlit("text/x-typescript");
            assert(a.take(8) =~= b.take(8));
            lemma_lex_order_common_prefix(a, b, 8);
        },
        457 => {
            let a = "text/x-typescript"@;
            let b = "text/x-typst"@;
            reveal_strlit("text/x-typescript");
            reveal_strlit("text/x-typst");
            assert(a.take(10) =~= b.take(10));
            lemma_lex_order_common_prefix(a, b, 10);
        },
        458 => {
            let a = "text/x-typst"@;
            let b = "text/x-vala"@;
            reveal_strlit("text/x-typst");
            reveal_strlit("text/x-vala");
            assert(a.take(7) =~= b.take(7));
            lemma_lex_order_common_prefix(a, b, 7);
        },
        459 => {
            let a = "text/x-vala"@;
            let b = "text/x-yaml"@;
            reveal_strlit("text/x-vala");
            reveal_strlit("text/x-yaml");
            assert(a.take(7) =~= b.take(7));
            lemma_lex_order_common_prefix(a, b, 7);
        },
        460 => {
            let a = "text/x-yaml"@;
            let b = "text/x-zig"@;
            reveal_strlit("text/x-yaml");
            reveal_strlit("text/x-zig");
            assert(a.take(7) =~= b.take(7));
            lemma_lex_order_common_prefix(a, b, 7);
        },
        461 => {
            let a = "text/x-zig"@;
            let b = "text/xml"@;
            reveal_strlit("text/x-zig");
            reveal_strlit("text/xml");
            assert(a.take(6) =~= b.take(6));
            lemma_lex_order_common_prefix(a, b, 6);
        },
        462 => {
            let a = "text/xml"@;
            let b = "text/yaml"@;
            reveal_strlit("text/xml");
            reveal_strlit("text/yaml");
            assert(a.take(5) =~= b.take(5));
            lemma_lex_order_common_prefix(a, b, 5);
        },
        463 => {
            let a = "text/yaml"@;
            let b = "video/x-generic"@;
            reveal_strlit("text/yaml");
            reveal_strlit("video/x-generic");
            assert(a.take(0) =~= b.take(0));
            lemma_lex_order_common_prefix(a, b, 0);
        },
        464 => {
            let a = "video/x-generic"@;
            let b = "x-content/ebook-reader"@;
            reveal_strlit("video/x-generic");
            reveal_strlit("x-content/ebook-reader");
            assert(a.take(0) =~= b.take(0));
            lemma_lex_order_common_prefix(a, b, 0);
        },
        _ => {},
    }
}

/// Neighbouring entries of the icon table are in order.
pub proof fn lemma_mime_keys_adjacent(i: usize)
    requires
        i + 1 < MIME_TABLE_LEN,
    ensures
        lex_order(mime_key(i), mime_key((i + 1) as usize)) <= 0,
{
    if i < 40 {
        lemma_mime_keys_adjacent_0(i);
    } else if i < 80 {
        lemma_mime_keys_adjacent_40(i);
    } else if i < 120 {
        lemma_mime_keys_adjacent_80(i);
    } else if i < 160 {
        lemma_mime_keys_adjacent_120(i);
    } else if i < 200 {
        lemma_mime_keys_adjacent_160(i);
    } else if i < 240 {
        lemma_mime_keys_adjacent_200(i);
    } else if i < 280 {
        lemma_mime_keys_adjacent_240(i);
    } else if i < 320 {
        lemma_mime_keys_adjacent_280(i);
    } else if i < 360 {
        lemma_mime_keys_adjacent_320(i);
    } else if i < 400 {
        lemma_mime_keys_adjacent_360(i);
    } else if i < 440 {
        lemma_mime_keys_adjacent_400(i);
    } else if i < 465 {
        lemma_mime_keys_adjacent_440(i);
    }
}

/// `s` with each `/` replaced by `-`.
pub open spec fn dashed(s: Seq<char>) -> Seq<char> {
    Seq::new(s.len(), |k: int| if s[k] == '/' { '-' } else { s[k] })
}

/// The entries whose icon is not named after their MIME type (see
/// `lemma_icon_is_dashed_type`).
pub open spec fn icon_named_otherwise(i: usize) -> bool {
    i == 9 || i == 51 || i == 66 || i == 68 || i == 69 || i == 71 || i == 74 || i == 88 ||
    i == 97 || i == 98 || i == 99 || i == 100 || i == 101 || i == 103 || i == 104 || i == 105 ||
    i == 106 || i == 107 || i == 108 || i == 109 || i == 110 || i == 111 || i == 112 ||
    i == 113 || i == 114 || i == 115 || i == 116 || i == 117 || i == 118 || i == 119 ||
    i == 120 || i == 121 || i == 122 || i == 123 || i == 124 || i == 125 || i == 126 ||
    i == 127 || i == 128 || i == 129 || i == 130 || i == 132 || i == 133 || i == 134 ||
    i == 135 || i == 136 || i == 137 || i == 138 || i == 139 || i == 141 || i == 142 ||
    i == 143 || i == 144 || i == 145 || i == 146 || i == 147 || i == 148 || i == 149 ||
    i == 150 || i == 151 || i == 152 || i == 153 || i == 155 || i == 156 || i == 157 ||
    i == 158 || i == 159 || i == 160 || i == 161 || i == 162 || i == 163 || i == 164 ||
    i == 165 || i == 166 || i == 167 || i == 168 || i == 183 || i == 185 || i == 201 ||
    i == 203 || i == 204 || i == 205 || i == 206 || i == 207 || i == 208 || i == 209 ||
    i == 210 || i == 211 || i == 235 || i == 236 || i == 243 || i == 270 || i == 287 ||
    i == 288 || i == 300 || i == 301 || i == 302 || i == 303 || i == 304 || i == 309 ||
    i == 310 || i == 311 || i == 312 || i == 313 || i == 314 || i == 317 || i == 328 ||
    i == 330 || i == 332 || i == 334 || i == 336 || i == 338 || i == 340 || i == 342 ||
    i == 347 || i == 349 || i == 352 || i == 357 || i == 362 || i == 431
}

proof fn lemma_icons_dashed_0(i: usize)
    requires
        0 <= i < 40,
        !icon_named_otherwise(i),
    ensures
        mime_icon(i) == dashed(mime_key(i)),
{
    match i {
        0 => {
            reveal_strlit("application/affinity");
            reveal_strlit("application-affinity");
            assert(mime_icon(i) =~= dashed(mime_key(i)));
        },
        1 => {
            reveal_strlit("application/affinity-template");
            reveal_strlit("application-affinity-template");
            assert(mime_icon(i) =~= dashed(mime_key(i)));
        },
        2 => {
            reveal_strlit("application/apk");
            reveal_strlit("application-apk");
            assert(mime_icon(i) =~= dashed(mime_key(i)));
        },
        3 => {
            reveal_strlit("application/atom+xml");
            reveal_strlit("application-atom+xml");
            assert(mime_icon(i) =~= dashed(mime_key(i)));
        },
        4 => {
            reveal_strlit("application/bitwig-clip");
            reveal_strlit("application-bitwig-clip");
            assert(mime_icon(i) =~= dashed(mime_key(i)));
        },
        5 => {
            reveal_strlit("application/bitwig-device");
            reveal_strlit("application-bitwig-device");
            assert(mime_icon(i) =~= dashed(mime_key(i)));
        },
        6 => {
            reveal_strlit("application/epub+zip");
            reveal_strlit("application-epub+zip");
            assert(mime_icon(i) =~= dashed(mime_key(i)));
        },
        7 => {
            reveal_strlit("application/geo+json");
            reveal_strlit("application-geo+json");
            assert(mime_icon(i) =~= dashed(mime_key(i)));
        },
        8 => {
            reveal_strlit("application/gml+xml");
            reveal_strlit("application-gml+xml");
            assert(mime_icon(i) =~= dashed(mime_key(i)));
        },
        10 => {
            reveal_strlit("application/gpx");
            reveal_strlit("application-gpx");
            assert(mime_icon(i) =~= dashed(mime_key(i)));
        },
        11 => {
            reveal_strlit("application/gpx+xml");
            reveal_strlit("application-gpx+xml");
            assert(mime_icon(i) =~= dashed(mime_key(i)));
        },
        12 => {
            reveal_strlit("application/hwp");
            reveal_strlit("application-hwp");
            assert(mime_icon(i) =~= dashed(mime_key(i)));
        },
        13 => {
            reveal_strlit("application/hwpx");
            reveal_strlit("application-hwpx");
            assert(mime_icon(i) =~= dashed(mime_key(i)));
        },
        14 => {
            reveal_strlit("application/illustrator");
            reveal_strlit("application-illustrator");
            assert(mime_icon(i) =~= dashed(mime_key(i)));
        },
        15 => {
            reveal_strlit("application/java");
            reveal_strlit("application-java");
            assert(mime_icon(i) =~= dashed(mime_key(i)));
        },
        16 => {
            reveal_strlit("application/javascript");
            reveal_strlit("application-javascript");
            assert(mime_icon(i) =~= dashed(mime_key(i)));
        },
        17 => {
            reveal_strlit("application/json");
            reveal_strlit("application-json");
            assert(mime_icon(i) =~= dashed(mime_key(i)));
        },
        18 => {
            reveal_strlit("application/loc+xml");
            reveal_strlit("application-loc+xml");
            assert(mime_icon(i) =~= dashed(mime_key(i)));
        },
        19 => {
            reveal_strlit("application/mathematica");
            reveal_strlit("application-mathematica");
            assert(mime_icon(i) =~= dashed(mime_key(i)));
        },
        20 => {
            reveal_strlit("application/mathematicaplayer");
            reveal_strlit("application-mathematicaplayer");
            assert(mime_icon(i) =~= dashed(mime_key(i)));
        },
        21 => {
            reveal_strlit("application/mbox");
            reveal_strlit("application-mbox");
            assert(mime_icon(i) =~= dashed(mime_key(i)));
        },
        22 => {
            reveal_strlit("application/metalink+xml");
            reveal_strlit("application-metalink+xml");
            assert(mime_icon(i) =~= dashed(mime_key(i)));
        },
        23 => {
            reveal_strlit("application/metalink4+xml");
            reveal_strlit("application-metalink4+xml");
            assert(mime_icon(i) =~= dashed(mime_key(i)));
        },
        24 => {
            reveal_strlit("application/octet-stream");
            reveal_strlit("application-octet-stream");
            assert(mime_icon(i) =~= dashed(mime_key(i)));
        },
        25 => {
            reveal_strlit("application/owl+xml");
            reveal_strlit("application-owl+xml");
            assert(mime_icon(i) =~= dashed(mime_key(i)));
        },
        26 => {
            reveal_strlit("application/pdf");
            reveal_strlit("application-pdf");
            assert(mime_icon(i) =~= dashed(mime_key(i)));
        },
        27 => {
            reveal_strlit("application/pgp");
            reveal_strlit("application-pgp");
            assert(mime_icon(i) =~= dashed(mime_key(i)));
        },
        28 => {
            reveal_strlit("application/pgp-encrypted");
            reveal_strlit("application-pgp-encrypted");
            assert(mime_icon(i) =~= dashed(mime_key(i)));
        },
        29 => {
            reveal_strlit("application/pgp-keys");
            reveal_strlit("application-pgp-keys");
            assert(mime_icon(i) =~= dashed(mime_key(i)));
        },
        30 => {
            reveal_strlit("application/pgp-signature");
            reveal_strlit("application-pgp-signature");
            assert(mime_icon(i) =~= dashed(mime_key(i)));
        },
        31 => {
            reveal_strlit("application/photoshop");
            reveal_strlit("application-photoshop");
            assert(mime_icon(i) =~= dashed(mime_key(i)));
        },
        32 => {
            reveal_strlit("application/pkcs10");
            reveal_strlit("application-pkcs10");
            assert(mime_icon(i) =~= dashed(mime_key(i)));
        },
        33 => {
            reveal_strlit("application/pkcs12");
            reveal_strlit("application-pkcs12");
            assert(mime_icon(i) =~= dashed(mime_key(i)));
        },
        34 => {
            reveal_strlit("application/pkcs7-mime");
            reveal_strlit("application-pkcs7-mime");
            assert(mime_icon(i) =~= dashed(mime_key(i)));
        },
        35 => {
            reveal_strlit("application/pkcs7-signature");
            reveal_strlit("application-pkcs7-signature");
            assert(mime_icon(i) =~= dashed(mime_key(i)));
        },
        36 => {
            reveal_strlit("application/pkcs8");
            reveal_strlit("application-pkcs8");
            assert(mime_icon(i) =~= dashed(mime_key(i)));
        },
        37 => {
            reveal_strlit("application/pkix-cert");
            reveal_strlit("application-pkix-cert");
            assert(mime_icon(i) =~= dashed(mime_key(i)));
        },
        38 => {
            reveal_strlit("application/postscript");
            reveal_strlit("application-postscript");
            assert(mime_icon(i) =~= dashed(mime_key(i)));
        },
        39 => {
            reveal_strlit("application/rss+xml");
            reveal_strlit("application-rss+xml");
            assert(mime_icon(i) =~= dashed(mime_key(i)));
        },
        _ => {},
    }
}

proof fn lemma_icons_dashed_40(i: usize)
    requires
        40 <= i < 80,
        !icon_named_otherwise(i),
    ensures
        mime_icon(i) == dashed(mime_key(i)),
{
    match i {
        40 => {
            reveal_strlit("application/schema+json");
            reveal_strlit("application-schema+json");
            assert(mime_icon(i) =~= dashed(mime_key(i)));
        },
        41 => {
            reveal_strlit("application/slf+xml");
            reveal_strlit("application-slf+xml");
            assert(mime_icon(i) =~= dashed(mime_key(i)));
        },
        42 => {
            reveal_strlit("application/sql");
            reveal_strlit("application-sql");
            assert(mime_icon(i) =~= dashed(mime_key(i)));
        },
        43 => {
            reveal_strlit("application/tcx+xml");
            reveal_strlit("application-tcx+xml");
            assert(mime_icon(i) =~= dashed(mime_key(i)));
        },
        44 => {
            reveal_strlit("application/toml");
            reveal_strlit("application-toml");
            assert(mime_icon(i) =~= dashed(mime_key(i)));
        },
        45 => {
            reveal_strlit("application/typescript");
            reveal_strlit("application-typescript");
            assert(mime_icon(i) =~= dashed(mime_key(i)));
        },
        46 => {
            reveal_strlit("application/vnd-google-earth-kml");
            reveal_strlit("application-vnd-google-earth-kml");
            assert(mime_icon(i) =~= dashed(mime_key(i)));
        },
        47 => {
            reveal_strlit("application/vnd.adobe.aftereffects.project");
            reveal_strlit("application-vnd.adobe.aftereffects.project");
            assert(mime_icon(i) =~= dashed(mime_key(i)));
        },
        48 => {
            reveal_strlit("application/vnd.adobe.aftereffects.template");
            reveal_strlit("application-vnd.adobe.aftereffects.template");
            assert(mime_icon(i) =~= dashed(mime_key(i)));
        },
        49 => {
            reveal_strlit("application/vnd.adobe.xd");
            reveal_strlit("application-vnd.adobe.xd");
            assert(mime_icon(i) =~= dashed(mime_key(i)));
        },
        50 => {
            reveal_strlit("application/vnd.amazon.mobi8-ebook");
            reveal_strlit("application-vnd.amazon.mobi8-ebook");
            assert(mime_icon(i) =~= dashed(mime_key(i)));
        },
        52 => {
            reveal_strlit("application/vnd.android.package-archive");
            reveal_strlit("application-vnd.android.package-archive");
            assert(mime_icon(i) =~= dashed(mime_key(i)));
        },
        53 => {
            reveal_strlit("application/vnd.ant.fit");
            reveal_strlit("application-vnd.ant.fit");
            assert(mime_icon(i) =~= dashed(mime_key(i)));
        },
        54 => {
            reveal_strlit("application/vnd.appimage");
            reveal_strlit("application-vnd.appimage");
            assert(mime_icon(i) =~= dashed(mime_key(i)));
        },
        55 => {
            reveal_strlit("application/vnd.coffeescript");
            reveal_strlit("application-vnd.coffeescript");
            assert(mime_icon(i) =~= dashed(mime_key(i)));
        },
        56 => {
            reveal_strlit("application/vnd.comicbook+zip");
            reveal_strlit("application-vnd.comicbook+zip");
            assert(mime_icon(i) =~= dashed(mime_key(i)));
        },
        57 => {
            reveal_strlit("application/vnd.comicbook-rar");
            reveal_strlit("application-vnd.comicbook-rar");
            assert(mime_icon(i) =~= dashed(mime_key(i)));
        },
        58 => {
            reveal_strlit("application/vnd.debian.binary-package");
            reveal_strlit("application-vnd.debian.binary-package");
            assert(mime_icon(i) =~= dashed(mime_key(i)));
        },
        59 => {
            reveal_strlit("application/vnd.efi.img");
            reveal_strlit("application-vnd.efi.img");
            assert(mime_icon(i) =~= dashed(mime_key(i)));
        },
        60 => {
            reveal_strlit("application/vnd.efi.iso");
            reveal_strlit("application-vnd.efi.iso");
            assert(mime_icon(i) =~= dashed(mime_key(i)));
        },
        61 => {
            reveal_strlit("application/vnd.fai.igc");
            reveal_strlit("application-vnd.fai.igc");
            assert(mime_icon(i) =~= dashed(mime_key(i)));
        },
        62 => {
            reveal_strlit("application/vnd.flatpak");
            reveal_strlit("application-vnd.flatpak");
            assert(mime_icon(i) =~= dashed(mime_key(i)));
        },
        63 => {
            reveal_strlit("application/vnd.flatpak.ref");
            reveal_strlit("application-vnd.flatpak.ref");
            assert(mime_icon(i) =~= dashed(mime_key(i)));
        },
        64 => {
            reveal_strlit("application/vnd.geo+json");
            reveal_strlit("application-vnd.geo+json");
            assert(mime_icon(i) =~= dashed(mime_key(i)));
        },
        65 => {
            reveal_strlit("application/vnd.google-apps.document");
            reveal_strlit("application-vnd.google-apps.document");
            assert(mime_icon(i) =~= dashed(mime_key(i)));
        },
        67 => {
            reveal_strlit("application/vnd.google-apps.drawing");
            reveal_strlit("application-vnd.google-apps.drawing");
            assert(mime_icon(i) =~= dashed(mime_key(i)));
        },
        70 => {
            reveal_strlit("application/vnd.google-apps.fusiontable");
            reveal_strlit("application-vnd.google-apps.fusiontable");
            assert(mime_icon(i) =~= dashed(mime_key(i)));
        },
        72 => {
            reveal_strlit("application/vnd.google-apps.map");
            reveal_strlit("application-vnd.google-apps.map");
            assert(mime_icon(i) =~= dashed(mime_key(i)));
        },
        73 => {
            reveal_strlit("application/vnd.google-apps.presentation");
            reveal_strlit("application-vnd.google-apps.presentation");
            assert(mime_icon(i) =~= dashed(mime_key(i)));
        },
        75 => {
            reveal_strlit("application/vnd.google-apps.site");
            reveal_strlit("application-vnd.google-apps.site");
            assert(mime_icon(i) =~= dashed(mime_key(i)));
        },
        76 => {
            reveal_strlit("application/vnd.google-apps.spreadsheet");
            reveal_strlit("application-vnd.google-apps.spreadsheet");
            assert(mime_icon(i) =~= dashed(mime_key(i)));
        },
        77 => {
            reveal_strlit("application/vnd.google-earth.kml");
            reveal_strlit("application-vnd.google-earth.kml");
            assert(mime_icon(i) =~= dashed(mime_key(i)));
        },
        78 => {
            reveal_strlit("application/vnd.google-earth.kml+xml");
            reveal_strlit("application-vnd.google-earth.kml+xml");
            assert(mime_icon(i) =~= dashed(mime_key(i)));
        },
        79 => {
            reveal_strlit("application/vnd.google-earth.kmz");
            reveal_strlit("application-vnd.google-earth.kmz");
            assert(mime_icon(i) =~= dashed(mime_key(i)));
        },
        _ => {},
    }
}

proof fn lemma_icons_dashed_80(i: usize)
    requires
        80 <= i < 120,
        !icon_named_otherwise(i),
    ensures
        mime_icon(i) == dashed(mime_key(i)),
{
    match i {
        80 => {
            reveal_strlit("application/vnd.iccprofile");
            reveal_strlit("application-vnd.iccprofile");
            assert(mime_icon(i) =~= dashed(mime_key(i)));
        },
        81 => {
            reveal_strlit("application/vnd.insync.link.drive.doc");
            reveal_strlit("application-vnd.insync.link.drive.doc");
            assert(mime_icon(i) =~= dashed(mime_key(i)));
        },
        82 => {
            reveal_strlit("application/vnd.insync.link.drive.draw");
            reveal_strlit("application-vnd.insync.link.drive.draw");
            assert(mime_icon(i) =~= dashed(mime_key(i)));
        },
        83 => {
            reveal_strlit("application/vnd.insync.link.drive.form");
            reveal_strlit("application-vnd.insync.link.drive.form");
            assert(mime_icon(i) =~= dashed(mime_key(i)));
        },
        84 => {
            reveal_strlit("application/vnd.insync.link.drive.slides");
            reveal_strlit("application-vnd.insync.link.drive.slides");
            assert(mime_icon(i) =~= dashed(mime_key(i)));
        },
        85 => {
            reveal_strlit("application/vnd.insync.link.drive.table");
            reveal_strlit("application-vnd.insync.link.drive.table");
            assert(mime_icon(i) =~= dashed(mime_key(i)));
        },
        86 => {
            reveal_strlit("application/vnd.leocad");
            reveal_strlit("application-vnd.leocad");
            assert(mime_icon(i) =~= dashed(mime_key(i)));
        },
        87 => {
            reveal_strlit("application/vnd.ms-access");
            reveal_strlit("application-vnd.ms-access");
            assert(mime_icon(i) =~= dashed(mime_key(i)));
        },
        89 => {
            reveal_strlit("application/vnd.ms-excel");
            reveal_strlit("application-vnd.ms-excel");
            assert(mime_icon(i) =~= dashed(mime_key(i)));
        },
        90 => {
            reveal_strlit("application/vnd.ms-excel.spreadsheet.macroenabled.12");
            reveal_strlit("application-vnd.ms-excel.spreadsheet.macroenabled.12");
            assert(mime_icon(i) =~= dashed(mime_key(i)));
        },
        91 => {
            reveal_strlit("application/vnd.ms-powerpoint");
            reveal_strlit("application-vnd.ms-powerpoint");
            assert(mime_icon(i) =~= dashed(mime_key(i)));
        },
        92 => {
            reveal_strlit("application/vnd.ms-powerpoint.presentation.macroEnabled.12");
            reveal_strlit("application-vnd.ms-powerpoint.presentation.macroEnabled.12");
            assert(mime_icon(i) =~= dashed(mime_key(i)));
        },
        93 => {
            reveal_strlit("application/vnd.ms-word");
            reveal_strlit("application-vnd.ms-word");
            assert(mime_icon(i) =~= dashed(mime_key(i)));
        },
        94 => {
            reveal_strlit("application/vnd.ms-word.document.macroenabled.12");
            reveal_strlit("application-vnd.ms-word.document.macroenabled.12");
            assert(mime_icon(i) =~= dashed(mime_key(i)));
        },
        95 => {
            reveal_strlit("application/vnd.nmea.nmea");
            reveal_strlit("application-vnd.nmea.nmea");
            assert(mime_icon(i) =~= dashed(mime_key(i)));
        },
        96 => {
            reveal_strlit("application/vnd.oasis.opendocument.database");
            reveal_strlit("application-vnd.oasis.opendocument.database");
            assert(mime_icon(i) =~= dashed(mime_key(i)));
        },
        102 => {
            reveal_strlit("application/vnd.oasis.opendocument.database-template");
            reveal_strlit("application-vnd.oasis.opendocument.database-template");
            assert(mime_icon(i) =~= dashed(mime_key(i)));
        },
        _ => {},
    }
}

proof fn lemma_icons_dashed_120(i: usize)
    requires
        120 <= i < 160,
        !icon_named_otherwise(i),
    ensures
        mime_icon(i) == dashed(mime_key(i)),
{
    match i {
        131 => {
            reveal_strlit("application/vnd.oasis.opendocument.spreadsheet");
            reveal_strlit("application-vnd.oasis.opendocument.spreadsheet");
            assert(mime_icon(i) =~= dashed(mime_key(i)));
        },
        140 => {
            reveal_strlit("application/vnd.oasis.opendocument.text");
            reveal_strlit("application-vnd.oasis.opendocument.text");
            assert(mime_icon(i) =~= dashed(mime_key(i)));
        },
        154 => {
            reveal_strlit("application/vnd.oasis.opendocument.text-template");
            reveal_strlit("application-vnd.oasis.opendocument.text-template");
            assert(mime_icon(i) =~= dashed(mime_key(i)));
        },
        _ => {},
    }
}

proof fn lemma_icons_dashed_160(i: usize)
    requires
        160 <= i < 200,
        !icon_named_otherwise(i),
    ensures
        mime_icon(i) == dashed(mime_key(i)),
{
    match i {
        169 => {
            reveal_strlit("application/vnd.openxmlformats-officedocument.presentationml.presentation");
            reveal_strlit("application-vnd.openxmlformats-officedocument.presentationml.presentation");
            assert(mime_icon(i) =~= dashed(mime_key(i)));
        },
        170 => {
            reveal_strlit("application/vnd.openxmlformats-officedocument.presentationml.slideshow");
            reveal_strlit("application-vnd.openxmlformats-officedocument.presentationml.slideshow");
            assert(mime_icon(i) =~= dashed(mime_key(i)));
        },
        171 => {
            reveal_strlit("application/vnd.openxmlformats-officedocument.spreadsheetml.sheet");
            reveal_strlit("application-vnd.openxmlformats-officedocument.spreadsheetml.sheet");
            assert(mime_icon(i) =~= dashed(mime_key(i)));
        },
        172 => {
            reveal_strlit("application/vnd.openxmlformats-officedocument.wordprocessingml.document");
            reveal_strlit("application-vnd.openxmlformats-officedocument.wordprocessingml.document");
            assert(mime_icon(i) =~= dashed(mime_key(i)));
        },
        173 => {
            reveal_strlit("application/vnd.oziexplorer.plt");
            reveal_strlit("application-vnd.oziexplorer.plt");
            assert(mime_icon(i) =~= dashed(mime_key(i)));
        },
        174 => {
            reveal_strlit("application/vnd.oziexplorer.rte");
            reveal_strlit("application-vnd.oziexplorer.rte");
            assert(mime_icon(i) =~= dashed(mime_key(i)));
        },
        175 => {
            reveal_strlit("application/vnd.oziexplorer.wpt");
            reveal_strlit("application-vnd.oziexplorer.wpt");
            assert(mime_icon(i) =~= dashed(mime_key(i)));
        },
        176 => {
            reveal_strlit("application/vnd.rmaps.sqlite");
            reveal_strlit("application-vnd.rmaps.sqlite");
            assert(mime_icon(i) =~= dashed(mime_key(i)));
        },
        177 => {
            reveal_strlit("application/vnd.scribus");
            reveal_strlit("application-vnd.scribus");
            assert(mime_icon(i) =~= dashed(mime_key(i)));
        },
        178 => {
            reveal_strlit("application/vnd.shp");
            reveal_strlit("application-vnd.shp");
            assert(mime_icon(i) =~= dashed(mime_key(i)));
        },
        179 => {
            reveal_strlit("application/vnd.shx");
            reveal_strlit("application-vnd.shx");
            assert(mime_icon(i) =~= dashed(mime_key(i)));
        },
        180 => {
            reveal_strlit("application/vnd.snap");
            reveal_strlit("application-vnd.snap");
            assert(mime_icon(i) =~= dashed(mime_key(i)));
        },
        181 => {
            reveal_strlit("application/vnd.sqlite2");
            reveal_strlit("application-vnd.sqlite2");
            assert(mime_icon(i) =~= dashed(mime_key(i)));
        },
        182 => {
            reveal_strlit("application/vnd.sqlite3");
            reveal_strlit("application-vnd.sqlite3");
            assert(mime_icon(i) =~= dashed(mime_key(i)));
        },
        184 => {
            reveal_strlit("application/vnd.squashfs");
            reveal_strlit("application-vnd.squashfs");
            assert(mime_icon(i) =~= dashed(mime_key(i)));
        },
        186 => {
            reveal_strlit("application/vnd.wolfram.cdf");
            reveal_strlit("application-vnd.wolfram.cdf");
            assert(mime_icon(i) =~= dashed(mime_key(i)));
        },
        187 => {
            reveal_strlit("application/vnd.wolfram.mathematica.package");
            reveal_strlit("application-vnd.wolfram.mathematica.package");
            assert(mime_icon(i) =~= dashed(mime_key(i)));
        },
        188 => {
            reveal_strlit("application/vnd.wolfram.nb");
            reveal_strlit("application-vnd.wolfram.nb");
            assert(mime_icon(i) =~= dashed(mime_key(i)));
        },
        189 => {
            reveal_strlit("application/vnd.wolfram.player");
            reveal_strlit("application-vnd.wolfram.player");
            assert(mime_icon(i) =~= dashed(mime_key(i)));
        },
        190 => {
            reveal_strlit("application/vnd.wolfram.wl");
            reveal_strlit("application-vnd.wolfram.wl");
            assert(mime_icon(i) =~= dashed(mime_key(i)));
        },
        191 => {
            reveal_strlit("application/vnd.wolfram.wls");
            reveal_strlit("application-vnd.wolfram.wls");
            assert(mime_icon(i) =~= dashed(mime_key(i)));
        },
        192 => {
            reveal_strlit("application/wasm");
            reveal_strlit("application-wasm");
            assert(mime_icon(i) =~= dashed(mime_key(i)));
        },
        193 => {
            reveal_strlit("application/x-adobe-indesign");
            reveal_strlit("application-x-adobe-indesign");
            assert(mime_icon(i) =~= dashed(mime_key(i)));
        },
        194 => {
            reveal_strlit("application/x-apple-diskimage");
            reveal_strlit("application-x-apple-diskimage");
            assert(mime_icon(i) =~= dashed(mime_key(i)));
        },
        195 => {
            reveal_strlit("application/x-applix-spreadsheet");
            reveal_strlit("application-x-applix-spreadsheet");
            assert(mime_icon(i) =~= dashed(mime_key(i)));
        },
        196 => {
            reveal_strlit("application/x-audacity-project");
            reveal_strlit("application-x-audacity-project");
            assert(mime_icon(i) =~= dashed(mime_key(i)));
        },
        197 => {
            reveal_strlit("application/x-audacity-project+sqlite3");
            reveal_strlit("application-x-audacity-project+sqlite3");
            assert(mime_icon(i) =~= dashed(mime_key(i)));
        },
        198 => {
            reveal_strlit("application/x-bibtex-text-file");
            reveal_strlit("application-x-bibtex-text-file");
            assert(mime_icon(i) =~= dashed(mime_key(i)));
        },
        199 => {
            reveal_strlit("application/x-bittorrent");
            reveal_strlit("application-x-bittorrent");
            assert(mime_icon(i) =~= dashed(mime_key(i)));
        },
        _ => {},
    }
}

proof fn lemma_icons_dashed_200(i: usize)
    requires
        200 <= i < 240,
        !icon_named_otherwise(i),
    ensures
        mime_icon(i) == dashed(mime_key(i)),
{
    match i {
        200 => {
            reveal_strlit("application/x-bitwig-clip");
            reveal_strlit("application-x-bitwig-clip");
            assert(mime_icon(i) =~= dashed(mime_key(i)));
        },
        202 => {
            reveal_strlit("application/x-bitwig-device");
            reveal_strlit("application-x-bitwig-device");
            assert(mime_icon(i) =~= dashed(mime_key(i)));
        },
        212 => {
            reveal_strlit("application/x-bitwig-studio");
            reveal_strlit("application-x-bitwig-studio");
            assert(mime_icon(i) =~= dashed(mime_key(i)));
        },
        213 => {
            reveal_strlit("application/x-blender");
            reveal_strlit("application-x-blender");
            assert(mime_icon(i) =~= dashed(mime_key(i)));
        },
        214 => {
            reveal_strlit("application/x-bps-patch");
            reveal_strlit("application-x-bps-patch");
            assert(mime_icon(i) =~= dashed(mime_key(i)));
        },
        215 => {
            reveal_strlit("application/x-bsdiff");
            reveal_strlit("application-x-bsdiff");
            assert(mime_icon(i) =~= dashed(mime_key(i)));
        },
        216 => {
            reveal_strlit("application/x-bzpostscript");
            reveal_strlit("application-x-bzpostscript");
            assert(mime_icon(i) =~= dashed(mime_key(i)));
        },
        217 => {
            reveal_strlit("application/x-cb7");
            reveal_strlit("application-x-cb7");
            assert(mime_icon(i) =~= dashed(mime_key(i)));
        },
        218 => {
            reveal_strlit("application/x-cba");
            reveal_strlit("application-x-cba");
            assert(mime_icon(i) =~= dashed(mime_key(i)));
        },
        219 => {
            reveal_strlit("application/x-cbr");
            reveal_strlit("application-x-cbr");
            assert(mime_icon(i) =~= dashed(mime_key(i)));
        },
        220 => {
            reveal_strlit("application/x-cbt");
            reveal_strlit("application-x-cbt");
            assert(mime_icon(i) =~= dashed(mime_key(i)));
        },
        221 => {
            reveal_strlit("application/x-cbz");
            reveal_strlit("application-x-cbz");
            assert(mime_icon(i) =~= dashed(mime_key(i)));
        },
        222 => {
            reveal_strlit("application/x-cd-image");
            reveal_strlit("application-x-cd-image");
            assert(mime_icon(i) =~= dashed(mime_key(i)));
        },
        223 => {
            reveal_strlit("application/x-clojure");
            reveal_strlit("application-x-clojure");
            assert(mime_icon(i) =~= dashed(mime_key(i)));
        },
        224 => {
            reveal_strlit("application/x-clojurescript");
            reveal_strlit("application-x-clojurescript");
            assert(mime_icon(i) =~= dashed(mime_key(i)));
        },
        225 => {
            reveal_strlit("application/x-com.bitwig-clip.BitwigStudio");
            reveal_strlit("application-x-com.bitwig-clip.BitwigStudio");
            assert(mime_icon(i) =~= dashed(mime_key(i)));
        },
        226 => {
            reveal_strlit("application/x-com.bitwig-device.BitwigStudio");
            reveal_strlit("application-x-com.bitwig-device.BitwigStudio");
            assert(mime_icon(i) =~= dashed(mime_key(i)));
        },
        227 => {
            reveal_strlit("application/x-com.bitwig.BitwigStudio");
            reveal_strlit("application-x-com.bitwig.BitwigStudio");
            assert(mime_icon(i) =~= dashed(mime_key(i)));
        },
        228 => {
            reveal_strlit("application/x-compressed-iso");
            reveal_strlit("application-x-compressed-iso");
            assert(mime_icon(i) =~= dashed(mime_key(i)));
        },
        229 => {
            reveal_strlit("application/x-cson");
            reveal_strlit("application-x-cson");
            assert(mime_icon(i) =~= dashed(mime_key(i)));
        },
        230 => {
            reveal_strlit("application/x-dbf");
            reveal_strlit("application-x-dbf");
            assert(mime_icon(i) =~= dashed(mime_key(i)));
        },
        231 => {
            reveal_strlit("application/x-deb");
            reveal_strlit("application-x-deb");
            assert(mime_icon(i) =~= dashed(mime_key(i)));
        },
        232 => {
            reveal_strlit("application/x-designer");
            reveal_strlit("application-x-designer");
            assert(mime_icon(i) =~= dashed(mime_key(i)));
        },
        233 => {
            reveal_strlit("application/x-e-theme");
            reveal_strlit("application-x-e-theme");
            assert(mime_icon(i) =~= dashed(mime_key(i)));
        },
        234 => {
            reveal_strlit("application/x-emerald-theme");
            reveal_strlit("application-x-emerald-theme");
            assert(mime_icon(i) =~= dashed(mime_key(i)));
        },
        237 => {
            reveal_strlit("application/x-fictionbook");
            reveal_strlit("application-x-fictionbook");
            assert(mime_icon(i) =~= dashed(mime_key(i)));
        },
        238 => {
            reveal_strlit("application/x-fictionbook+xml");
            reveal_strlit("application-x-fictionbook+xml");
            assert(mime_icon(i) =~= dashed(mime_key(i)));
        },
        239 => {
            reveal_strlit("application/x-firmware");
            reveal_strlit("application-x-firmware");
            assert(mime_icon(i) =~= dashed(mime_key(i)));
        },
        _ => {},
    }
}

proof fn lemma_icons_dashed_240(i: usize)
    requires
        240 <= i < 280,
        !icon_named_otherwise(i),
    ensures
        mime_icon(i) == dashed(mime_key(i)),
{
    match i {
        240 => {
            reveal_strlit("application/x-gdbm");
            reveal_strlit("application-x-gdbm");
            assert(mime_icon(i) =~= dashed(mime_key(i)));
        },
        241 => {
            reveal_strlit("application/x-gdscript");
            reveal_strlit("application-x-gdscript");
            assert(mime_icon(i) =~= dashed(mime_key(i)));
        },
        242 => {
            reveal_strlit("application/x-generic");
            reveal_strlit("application-x-generic");
            assert(mime_icon(i) =~= dashed(mime_key(i)));
        },
        244 => {
            reveal_strlit("application/x-gettext-translation");
            reveal_strlit("application-x-gettext-translation");
            assert(mime_icon(i) =~= dashed(mime_key(i)));
        },
        245 => {
            reveal_strlit("application/x-godot-project");
            reveal_strlit("application-x-godot-project");
            assert(mime_icon(i) =~= dashed(mime_key(i)));
        },
        246 => {
            reveal_strlit("application/x-godot-resource");
            reveal_strlit("application-x-godot-resource");
            assert(mime_icon(i) =~= dashed(mime_key(i)));
        },
        247 => {
            reveal_strlit("application/x-godot-scene");
            reveal_strlit("application-x-godot-scene");
            assert(mime_icon(i) =~= dashed(mime_key(i)));
        },
        248 => {
            reveal_strlit("application/x-godot-shader");
            reveal_strlit("application-x-godot-shader");
            assert(mime_icon(i) =~= dashed(mime_key(i)));
        },
        249 => {
            reveal_strlit("application/x-gpx");
            reveal_strlit("application-x-gpx");
            assert(mime_icon(i) =~= dashed(mime_key(i)));
        },
        250 => {
            reveal_strlit("application/x-gpx+xml");
            reveal_strlit("application-x-gpx+xml");
            assert(mime_icon(i) =~= dashed(mime_key(i)));
        },
        251 => {
            reveal_strlit("application/x-gzpdf");
            reveal_strlit("application-x-gzpdf");
            assert(mime_icon(i) =~= dashed(mime_key(i)));
        },
        252 => {
            reveal_strlit("application/x-gzpostscript");
            reveal_strlit("application-x-gzpostscript");
            assert(mime_icon(i) =~= dashed(mime_key(i)));
        },
        253 => {
            reveal_strlit("application/x-hwp");
            reveal_strlit("application-x-hwp");
            assert(mime_icon(i) =~= dashed(mime_key(i)));
        },
        254 => {
            reveal_strlit("application/x-hwpx");
            reveal_strlit("application-x-hwpx");
            assert(mime_icon(i) =~= dashed(mime_key(i)));
        },
        255 => {
            reveal_strlit("application/x-ips-patch");
            reveal_strlit("application-x-ips-patch");
            assert(mime_icon(i) =~= dashed(mime_key(i)));
        },
        256 => {
            reveal_strlit("application/x-ipynb+json");
            reveal_strlit("application-x-ipynb+json");
            assert(mime_icon(i) =~= dashed(mime_key(i)));
        },
        257 => {
            reveal_strlit("application/x-iso");
            reveal_strlit("application-x-iso");
            assert(mime_icon(i) =~= dashed(mime_key(i)));
        },
        258 => {
            reveal_strlit("application/x-iso9600-appimage");
            reveal_strlit("application-x-iso9600-appimage");
            assert(mime_icon(i) =~= dashed(mime_key(i)));
        },
        259 => {
            reveal_strlit("application/x-jar");
            reveal_strlit("application-x-jar");
            assert(mime_icon(i) =~= dashed(mime_key(i)));
        },
        260 => {
            reveal_strlit("application/x-java");
            reveal_strlit("application-x-java");
            assert(mime_icon(i) =~= dashed(mime_key(i)));
        },
        261 => {
            reveal_strlit("application/x-java-applet");
            reveal_strlit("application-x-java-applet");
            assert(mime_icon(i) =~= dashed(mime_key(i)));
        },
        262 => {
            reveal_strlit("application/x-java-archive");
            reveal_strlit("application-x-java-archive");
            assert(mime_icon(i) =~= dashed(mime_key(i)));
        },
        263 => {
            reveal_strlit("application/x-javascript");
            reveal_strlit("application-x-javascript");
            assert(mime_icon(i) =~= dashed(mime_key(i)));
        },
        264 => {
            reveal_strlit("application/x-julia");
            reveal_strlit("application-x-julia");
            assert(mime_icon(i) =~= dashed(mime_key(i)));
        },
        265 => {
            reveal_strlit("application/x-kdenlive");
            reveal_strlit("application-x-kdenlive");
            assert(mime_icon(i) =~= dashed(mime_key(i)));
        },
        266 => {
            reveal_strlit("application/x-keepass");
            reveal_strlit("application-x-keepass");
            assert(mime_icon(i) =~= dashed(mime_key(i)));
        },
        267 => {
            reveal_strlit("application/x-keepass2");
            reveal_strlit("application-x-keepass2");
            assert(mime_icon(i) =~= dashed(mime_key(i)));
        },
        268 => {
            reveal_strlit("application/x-keepassx");
            reveal_strlit("application-x-keepassx");
            assert(mime_icon(i) =~= dashed(mime_key(i)));
        },
        269 => {
            reveal_strlit("application/x-keepassxc");
            reveal_strlit("application-x-keepassxc");
            assert(mime_icon(i) =~= dashed(mime_key(i)));
        },
        271 => {
            reveal_strlit("application/x-kexi-connectiondata");
            reveal_strlit("application-x-kexi-connectiondata");
            assert(mime_icon(i) =~= dashed(mime_key(i)));
        },
        272 => {
            reveal_strlit("application/x-kexiproject-sqlite2");
            reveal_strlit("application-x-kexiproject-sqlite2");
            assert(mime_icon(i) =~= dashed(mime_key(i)));
        },
        273 => {
            reveal_strlit("application/x-kexiproject-sqlite3");
            reveal_strlit("application-x-kexiproject-sqlite3");
            assert(mime_icon(i) =~= dashed(mime_key(i)));
        },
        274 => {
            reveal_strlit("application/x-kgetlist");
            reveal_strlit("application-x-kgetlist");
            assert(mime_icon(i) =~= dashed(mime_key(i)));
        },
        275 => {
            reveal_strlit("application/x-kpresenter");
            reveal_strlit("application-x-kpresenter");
            assert(mime_icon(i) =~= dashed(mime_key(i)));
        },
        276 => {
            reveal_strlit("application/x-krita");
            reveal_strlit("application-x-krita");
            assert(mime_icon(i) =~= dashed(mime_key(i)));
        },
        277 => {
            reveal_strlit("application/x-krita-assistant");
            reveal_strlit("application-x-krita-assistant");
            assert(mime_icon(i) =~= dashed(mime_key(i)));
        },
        278 => {
            reveal_strlit("application/x-krita-paintoppresent");
            reveal_strlit("application-x-krita-paintoppresent");
            assert(mime_icon(i) =~= dashed(mime_key(i)));
        },
        279 => {
            reveal_strlit("application/x-ktheme");
            reveal_strlit("application-x-ktheme");
            assert(mime_icon(i) =~= dashed(mime_key(i)));
        },
        _ => {},
    }
}

proof fn lemma_icons_dashed_280(i: usize)
    requires
        280 <= i < 320,
        !icon_named_otherwise(i),
    ensures
        mime_icon(i) == dashed(mime_key(i)),
{
    match i {
        280 => {
            reveal_strlit("application/x-lzpdf");
            reveal_strlit("application-x-lzpdf");
            assert(mime_icon(i) =~= dashed(mime_key(i)));
        },
        281 => {
            reveal_strlit("application/x-mobi8-ebook");
            reveal_strlit("application-x-mobi8-ebook");
            assert(mime_icon(i) =~= dashed(mime_key(i)));
        },
        282 => {
            reveal_strlit("application/x-mobipocket-ebook");
            reveal_strlit("application-x-mobipocket-ebook");
            assert(mime_icon(i) =~= dashed(mime_key(i)));
        },
        283 => {
            reveal_strlit("application/x-model");
            reveal_strlit("application-x-model");
            assert(mime_icon(i) =~= dashed(mime_key(i)));
        },
        284 => {
            reveal_strlit("application/x-msdownload");
            reveal_strlit("application-x-msdownload");
            assert(mime_icon(i) =~= dashed(mime_key(i)));
        },
        285 => {
            reveal_strlit("application/x-musescore4portable");
            reveal_strlit("application-x-musescore4portable");
            assert(mime_icon(i) =~= dashed(mime_key(i)));
        },
        286 => {
            reveal_strlit("application/x-musescore4portable+xml");
            reveal_strlit("application-x-musescore4portable+xml");
            assert(mime_icon(i) =~= dashed(mime_key(i)));
        },
        289 => {
            reveal_strlit("application/x-ole-storage");
            reveal_strlit("application-x-ole-storage");
            assert(mime_icon(i) =~= dashed(mime_key(i)));
        },
        290 => {
            reveal_strlit("application/x-osm+xml");
            reveal_strlit("application-x-osm+xml");
            assert(mime_icon(i) =~= dashed(mime_key(i)));
        },
        291 => {
            reveal_strlit("application/x-pem-key");
            reveal_strlit("application-x-pem-key");
            assert(mime_icon(i) =~= dashed(mime_key(i)));
        },
        292 => {
            reveal_strlit("application/x-perl");
            reveal_strlit("application-x-perl");
            assert(mime_icon(i) =~= dashed(mime_key(i)));
        },
        293 => {
            reveal_strlit("application/x-photoshop");
            reveal_strlit("application-x-photoshop");
            assert(mime_icon(i) =~= dashed(mime_key(i)));
        },
        294 => {
            reveal_strlit("application/x-php");
            reveal_strlit("application-x-php");
            assert(mime_icon(i) =~= dashed(mime_key(i)));
        },
        295 => {
            reveal_strlit("application/x-pkcs12");
            reveal_strlit("application-x-pkcs12");
            assert(mime_icon(i) =~= dashed(mime_key(i)));
        },
        296 => {
            reveal_strlit("application/x-pkcs7");
            reveal_strlit("application-x-pkcs7");
            assert(mime_icon(i) =~= dashed(mime_key(i)));
        },
        297 => {
            reveal_strlit("application/x-pkcs7-certificates");
            reveal_strlit("application-x-pkcs7-certificates");
            assert(mime_icon(i) =~= dashed(mime_key(i)));
        },
        298 => {
            reveal_strlit("application/x-ptoptimizer-script");
            reveal_strlit("application-x-ptoptimizer-script");
            assert(mime_icon(i) =~= dashed(mime_key(i)));
        },
        299 => {
            reveal_strlit("application/x-python-bytecode");
            reveal_strlit("application-x-python-bytecode");
            assert(mime_icon(i) =~= dashed(mime_key(i)));
        },
        305 => {
            reveal_strlit("application/x-raw-disk-image");
            reveal_strlit("application-x-raw-disk-image");
            assert(mime_icon(i) =~= dashed(mime_key(i)));
        },
        306 => {
            reveal_strlit("application/x-raw-disk-image-xz-compressed");
            reveal_strlit("application-x-raw-disk-image-xz-compressed");
            assert(mime_icon(i) =~= dashed(mime_key(i)));
        },
        307 => {
            reveal_strlit("application/x-raw-floppy-disk-image");
            reveal_strlit("application-x-raw-floppy-disk-image");
            assert(mime_icon(i) =~= dashed(mime_key(i)));
        },
        308 => {
            reveal_strlit("application/x-rdata");
            reveal_strlit("application-x-rdata");
            assert(mime_icon(i) =~= dashed(mime_key(i)));
        },
        315 => {
            reveal_strlit("application/x-rpm");
            reveal_strlit("application-x-rpm");
            assert(mime_icon(i) =~= dashed(mime_key(i)));
        },
        316 => {
            reveal_strlit("application/x-ruby");
            reveal_strlit("application-x-ruby");
            assert(mime_icon(i) =~= dashed(mime_key(i)));
        },
        318 => {
            reveal_strlit("application/x-shellscript");
            reveal_strlit("application-x-shellscript");
            assert(mime_icon(i) =~= dashed(mime_key(i)));
        },
        319 => {
            reveal_strlit("application/x-source-rpm");
            reveal_strlit("application-x-source-rpm");
            assert(mime_icon(i) =~= dashed(mime_key(i)));
        },
        _ => {},
    }
}

proof fn lemma_icons_dashed_320(i: usize)
    requires
        320 <= i < 360,
        !icon_named_otherwise(i),
    ensures
        mime_icon(i) == dashed(mime_key(i)),
{
    match i {
        320 => {
            reveal_strlit("application/x-spectrum");
            reveal_strlit("application-x-spectrum");
            assert(mime_icon(i) =~= dashed(mime_key(i)));
        },
        321 => {
            reveal_strlit("application/x-spectrum-tzx");
            reveal_strlit("application-x-spectrum-tzx");
            assert(mime_icon(i) =~= dashed(mime_key(i)));
        },
        322 => {
            reveal_strlit("application/x-sqlite2");
            reveal_strlit("application-x-sqlite2");
            assert(mime_icon(i) =~= dashed(mime_key(i)));
        },
        323 => {
            reveal_strlit("application/x-sqlite3");
            reveal_strlit("application-x-sqlite3");
            assert(mime_icon(i) =~= dashed(mime_key(i)));
        },
        324 => {
            reveal_strlit("application/x-subrip");
            reveal_strlit("application-x-subrip");
            assert(mime_icon(i) =~= dashed(mime_key(i)));
        },
        325 => {
            reveal_strlit("application/x-theme");
            reveal_strlit("application-x-theme");
            assert(mime_icon(i) =~= dashed(mime_key(i)));
        },
        326 => {
            reveal_strlit("application/x-typescript");
            reveal_strlit("application-x-typescript");
            assert(mime_icon(i) =~= dashed(mime_key(i)));
        },
        327 => {
            reveal_strlit("application/x-virtualbox-hdd");
            reveal_strlit("application-x-virtualbox-hdd");
            assert(mime_icon(i) =~= dashed(mime_key(i)));
        },
        329 => {
            reveal_strlit("application/x-virtualbox-ova");
            reveal_strlit("application-x-virtualbox-ova");
            assert(mime_icon(i) =~= dashed(mime_key(i)));
        },
        331 => {
            reveal_strlit("application/x-virtualbox-ovf");
            reveal_strlit("application-x-virtualbox-ovf");
            assert(mime_icon(i) =~= dashed(mime_key(i)));
        },
        333 => {
            reveal_strlit("application/x-virtualbox-vbox");
            reveal_strlit("application-x-virtualbox-vbox");
            assert(mime_icon(i) =~= dashed(mime_key(i)));
        },
        335 => {
            reveal_strlit("application/x-virtualbox-vbox-extpack");
            reveal_strlit("application-x-virtualbox-vbox-extpack");
            assert(mime_icon(i) =~= dashed(mime_key(i)));
        },
        337 => {
            reveal_strlit("application/x-virtualbox-vdi");
            reveal_strlit("application-x-virtualbox-vdi");
            assert(mime_icon(i) =~= dashed(mime_key(i)));
        },
        339 => {
            reveal_strlit("application/x-virtualbox-vhd");
            reveal_strlit("application-x-virtualbox-vhd");
            assert(mime_icon(i) =~= dashed(mime_key(i)));
        },
        341 => {
            reveal_strlit("application/x-virtualbox-vmdk");
            reveal_strlit("application-x-virtualbox-vmdk");
            assert(mime_icon(i) =~= dashed(mime_key(i)));
        },
        343 => {
            reveal_strlit("application/x-windows-themepack");
            reveal_strlit("application-x-windows-themepack");
            assert(mime_icon(i) =~= dashed(mime_key(i)));
        },
        344 => {
            reveal_strlit("application/x-x509-ca-cert");
            reveal_strlit("application-x-x509-ca-cert");
            assert(mime_icon(i) =~= dashed(mime_key(i)));
        },
        345 => {
            reveal_strlit("application/x-x509-user-cert");
            reveal_strlit("application-x-x509-user-cert");
            assert(mime_icon(i) =~= dashed(mime_key(i)));
        },
        346 => {
            reveal_strlit("application/x-xopp");
            reveal_strlit("application-x-xopp");
            assert(mime_icon(i) =~= dashed(mime_key(i)));
        },
        348 => {
            reveal_strlit("application/x-xopt");
            reveal_strlit("application-x-xopt");
            assert(mime_icon(i) =~= dashed(mime_key(i)));
        },
        350 => {
            reveal_strlit("application/x-xzpdf");
            reveal_strlit("application-x-xzpdf");
            assert(mime_icon(i) =~= dashed(mime_key(i)));
        },
        351 => {
            reveal_strlit("application/x-yaml");
            reveal_strlit("application-x-yaml");
            assert(mime_icon(i) =~= dashed(mime_key(i)));
        },
        353 => {
            reveal_strlit("application/x-zip-compressed-fb2");
            reveal_strlit("application-x-zip-compressed-fb2");
            assert(mime_icon(i) =~= dashed(mime_key(i)));
        },
        354 => {
            reveal_strlit("application/xml");
            reveal_strlit("application-xml");
            assert(mime_icon(i) =~= dashed(mime_key(i)));
        },
        355 => {
            reveal_strlit("application/xslt+xml");
            reveal_strlit("application-xslt+xml");
            assert(mime_icon(i) =~= dashed(mime_key(i)));
        },
        356 => {
            reveal_strlit("application/yaml");
            reveal_strlit("application-yaml");
            assert(mime_icon(i) =~= dashed(mime_key(i)));
        },
        358 => {
            reveal_strlit("chemical/x-cache");
            reveal_strlit("chemical-x-cache");
            assert(mime_icon(i) =~= dashed(mime_key(i)));
        },
        359 => {
            reveal_strlit("image/vnd.adobe.photoshop");
            reveal_strlit("image-vnd.adobe.photoshop");
            assert(mime_icon(i) =~= dashed(mime_key(i)));
        },
        _ => {},
    }
}

proof fn lemma_icons_dashed_360(i: usize)
    requires
        360 <= i < 400,
        !icon_named_otherwise(i),
    ensures
        mime_icon(i) == dashed(mime_key(i)),
{
    match i {
        360 => {
            reveal_strlit("image/vnd.djvu");
            reveal_strlit("image-vnd.djvu");
            assert(mime_icon(i) =~= dashed(mime_key(i)));
        },
        361 => {
            reveal_strlit("image/vnd.djvu+multipage");
            reveal_strlit("image-vnd.djvu+multipage");
            assert(mime_icon(i) =~= dashed(mime_key(i)));
        },
        363 => {
            reveal_strlit("image/x-djvu");
            reveal_strlit("image-x-djvu");
            assert(mime_icon(i) =~= dashed(mime_key(i)));
        },
        364 => {
            reveal_strlit("image/x-generic");
            reveal_strlit("image-x-generic");
            assert(mime_icon(i) =~= dashed(mime_key(i)));
        },
        365 => {
            reveal_strlit("image/x-krita");
            reveal_strlit("image-x-krita");
            assert(mime_icon(i) =~= dashed(mime_key(i)));
        },
        366 => {
            reveal_strlit("image/x-photoshop");
            reveal_strlit("image-x-photoshop");
            assert(mime_icon(i) =~= dashed(mime_key(i)));
        },
        367 => {
            reveal_strlit("inode/symlink");
            reveal_strlit("inode-symlink");
            assert(mime_icon(i) =~= dashed(mime_key(i)));
        },
        368 => {
            reveal_strlit("model/obj");
            reveal_strlit("model-obj");
            assert(mime_icon(i) =~= dashed(mime_key(i)));
        },
        369 => {
            reveal_strlit("model/stl");
            reveal_strlit("model-stl");
            assert(mime_icon(i) =~= dashed(mime_key(i)));
        },
        370 => {
            reveal_strlit("model/x-stl-binary");
            reveal_strlit("model-x-stl-binary");
            assert(mime_icon(i) =~= dashed(mime_key(i)));
        },
        371 => {
            reveal_strlit("model/x.stl-ascii");
            reveal_strlit("model-x.stl-ascii");
            assert(mime_icon(i) =~= dashed(mime_key(i)));
        },
        372 => {
            reveal_strlit("model/x.stl-binary");
            reveal_strlit("model-x.stl-binary");
            assert(mime_icon(i) =~= dashed(mime_key(i)));
        },
        373 => {
            reveal_strlit("multipart/encrypted");
            reveal_strlit("multipart-encrypted");
            assert(mime_icon(i) =~= dashed(mime_key(i)));
        },
        374 => {
            reveal_strlit("multipart/signed");
            reveal_strlit("multipart-signed");
            assert(mime_icon(i) =~= dashed(mime_key(i)));
        },
        375 => {
            reveal_strlit("text/arduino");
            reveal_strlit("text-arduino");
            assert(mime_icon(i) =~= dashed(mime_key(i)));
        },
        376 => {
            reveal_strlit("text/asciidoc");
            reveal_strlit("text-asciidoc");
            assert(mime_icon(i) =~= dashed(mime_key(i)));
        },
        377 => {
            reveal_strlit("text/coffeescript");
            reveal_strlit("text-coffeescript");
            assert(mime_icon(i) =~= dashed(mime_key(i)));
        },
        378 => {
            reveal_strlit("text/css");
            reveal_strlit("text-css");
            assert(mime_icon(i) =~= dashed(mime_key(i)));
        },
        379 => {
            reveal_strlit("text/csv");
            reveal_strlit("text-csv");
            assert(mime_icon(i) =~= dashed(mime_key(i)));
        },
        380 => {
            reveal_strlit("text/csv-schema");
            reveal_strlit("text-csv-schema");
            assert(mime_icon(i) =~= dashed(mime_key(i)));
        },
        381 => {
            reveal_strlit("text/fsharp");
            reveal_strlit("text-fsharp");
            assert(mime_icon(i) =~= dashed(mime_key(i)));
        },
        382 => {
            reveal_strlit("text/javascript");
            reveal_strlit("text-javascript");
            assert(mime_icon(i) =~= dashed(mime_key(i)));
        },
        383 => {
            reveal_strlit("text/json");
            reveal_strlit("text-json");
            assert(mime_icon(i) =~= dashed(mime_key(i)));
        },
        384 => {
            reveal_strlit("text/less");
            reveal_strlit("text-less");
            assert(mime_icon(i) =~= dashed(mime_key(i)));
        },
        385 => {
            reveal_strlit("text/markdown");
            reveal_strlit("text-markdown");
            assert(mime_icon(i) =~= dashed(mime_key(i)));
        },
        386 => {
            reveal_strlit("text/pureDataPatch");
            reveal_strlit("text-pureDataPatch");
            assert(mime_icon(i) =~= dashed(mime_key(i)));
        },
        387 => {
            reveal_strlit("text/rdf+xml");
            reveal_strlit("text-rdf+xml");
            assert(mime_icon(i) =~= dashed(mime_key(i)));
        },
        388 => {
            reveal_strlit("text/ruby");
            reveal_strlit("text-ruby");
            assert(mime_icon(i) =~= dashed(mime_key(i)));
        },
        389 => {
            reveal_strlit("text/rust");
            reveal_strlit("text-rust");
            assert(mime_icon(i) =~= dashed(mime_key(i)));
        },
        390 => {
            reveal_strlit("text/spreadsheet");
            reveal_strlit("text-spreadsheet");
            assert(mime_icon(i) =~= dashed(mime_key(i)));
        },
        391 => {
            reveal_strlit("text/tab-separated-values");
            reveal_strlit("text-tab-separated-values");
            assert(mime_icon(i) =~= dashed(mime_key(i)));
        },
        392 => {
            reveal_strlit("text/vtt");
            reveal_strlit("text-vtt");
            assert(mime_icon(i) =~= dashed(mime_key(i)));
        },
        393 => {
            reveal_strlit("text/x-R");
            reveal_strlit("text-x-R");
            assert(mime_icon(i) =~= dashed(mime_key(i)));
        },
        394 => {
            reveal_strlit("text/x-arduino");
            reveal_strlit("text-x-arduino");
            assert(mime_icon(i) =~= dashed(mime_key(i)));
        },
        395 => {
            reveal_strlit("text/x-ass");
            reveal_strlit("text-x-ass");
            assert(mime_icon(i) =~= dashed(mime_key(i)));
        },
        396 => {
            reveal_strlit("text/x-bibtex");
            reveal_strlit("text-x-bibtex");
            assert(mime_icon(i) =~= dashed(mime_key(i)));
        },
        397 => {
            reveal_strlit("text/x-c");
            reveal_strlit("text-x-c");
            assert(mime_icon(i) =~= dashed(mime_key(i)));
        },
        398 => {
            reveal_strlit("text/x-c++");
            reveal_strlit("text-x-c++");
            assert(mime_icon(i) =~= dashed(mime_key(i)));
        },
        399 => {
            reveal_strlit("text/x-c++hdr");
            reveal_strlit("text-x-c++hdr");
            assert(mime_icon(i) =~= dashed(mime_key(i)));
        },
        _ => {},
    }
}

proof fn lemma_icons_dashed_400(i: usize)
    requires
        400 <= i < 440,
        !icon_named_otherwise(i),
    ensures
        mime_icon(i) == dashed(mime_key(i)),
{
    match i {
        400 => {
            reveal_strlit("text/x-c++src");
            reveal_strlit("text-x-c++src");
            assert(mime_icon(i) =~= dashed(mime_key(i)));
        },
        401 => {
            reveal_strlit("text/x-chdr");
            reveal_strlit("text-x-chdr");
            assert(mime_icon(i) =~= dashed(mime_key(i)));
        },
        402 => {
            reveal_strlit("text/x-clojure");
            reveal_strlit("text-x-clojure");
            assert(mime_icon(i) =~= dashed(mime_key(i)));
        },
        403 => {
            reveal_strlit("text/x-clojurescript");
            reveal_strlit("text-x-clojurescript");
            assert(mime_icon(i) =~= dashed(mime_key(i)));
        },
        404 => {
            reveal_strlit("text/x-cmake");
            reveal_strlit("text-x-cmake");
            assert(mime_icon(i) =~= dashed(mime_key(i)));
        },
        405 => {
            reveal_strlit("text/x-cobol");
            reveal_strlit("text-x-cobol");
            assert(mime_icon(i) =~= dashed(mime_key(i)));
        },
        406 => {
            reveal_strlit("text/x-coffeescript");
            reveal_strlit("text-x-coffeescript");
            assert(mime_icon(i) =~= dashed(mime_key(i)));
        },
        407 => {
            reveal_strlit("text/x-common-lisp");
            reveal_strlit("text-x-common-lisp");
            assert(mime_icon(i) =~= dashed(mime_key(i)));
        },
        408 => {
            reveal_strlit("text/x-cpp");
            reveal_strlit("text-x-cpp");
            assert(mime_icon(i) =~= dashed(mime_key(i)));
        },
        409 => {
            reveal_strlit("text/x-cpphdr");
            reveal_strlit("text-x-cpphdr");
            assert(mime_icon(i) =~= dashed(mime_key(i)));
        },
        410 => {
            reveal_strlit("text/x-cppsrc");
            reveal_strlit("text-x-cppsrc");
            assert(mime_icon(i) =~= dashed(mime_key(i)));
        },
        411 => {
            reveal_strlit("text/x-csharp");
            reveal_strlit("text-x-csharp");
            assert(mime_icon(i) =~= dashed(mime_key(i)));
        },
        412 => {
            reveal_strlit("text/x-csrc");
            reveal_strlit("text-x-csrc");
            assert(mime_icon(i) =~= dashed(mime_key(i)));
        },
        413 => {
            reveal_strlit("text/x-css");
            reveal_strlit("text-x-css");
            assert(mime_icon(i) =~= dashed(mime_key(i)));
        },
        414 => {
            reveal_strlit("text/x-emacs-lisp");
            reveal_strlit("text-x-emacs-lisp");
            assert(mime_icon(i) =~= dashed(mime_key(i)));
        },
        415 => {
            reveal_strlit("text/x-fsharp");
            reveal_strlit("text-x-fsharp");
            assert(mime_icon(i) =~= dashed(mime_key(i)));
        },
        416 => {
            reveal_strlit("text/x-generic");
            reveal_strlit("text-x-generic");
            assert(mime_icon(i) =~= dashed(mime_key(i)));
        },
        417 => {
            reveal_strlit("text/x-gettext-translation");
            reveal_strlit("text-x-gettext-translation");
            assert(mime_icon(i) =~= dashed(mime_key(i)));
        },
        418 => {
            reveal_strlit("text/x-gettext-translation-template");
            reveal_strlit("text-x-gettext-translation-template");
            assert(mime_icon(i) =~= dashed(mime_key(i)));
        },
        419 => {
            reveal_strlit("text/x-go");
            reveal_strlit("text-x-go");
            assert(mime_icon(i) =~= dashed(mime_key(i)));
        },
        420 => {
            reveal_strlit("text/x-gradle");
            reveal_strlit("text-x-gradle");
            assert(mime_icon(i) =~= dashed(mime_key(i)));
        },
        421 => {
            reveal_strlit("text/x-gradle-kotlin");
            reveal_strlit("text-x-gradle-kotlin");
            assert(mime_icon(i) =~= dashed(mime_key(i)));
        },
        422 => {
            reveal_strlit("text/x-hex");
            reveal_strlit("text-x-hex");
            assert(mime_icon(i) =~= dashed(mime_key(i)));
        },
        423 => {
            reveal_strlit("text/x-java");
            reveal_strlit("text-x-java");
            assert(mime_icon(i) =~= dashed(mime_key(i)));
        },
        424 => {
            reveal_strlit("text/x-java-source");
            reveal_strlit("text-x-java-source");
            assert(mime_icon(i) =~= dashed(mime_key(i)));
        },
        425 => {
            reveal_strlit("text/x-javascript");
            reveal_strlit("text-x-javascript");
            assert(mime_icon(i) =~= dashed(mime_key(i)));
        },
        426 => {
            reveal_strlit("text/x-julia");
            reveal_strlit("text-x-julia");
            assert(mime_icon(i) =~= dashed(mime_key(i)));
        },
        427 => {
            reveal_strlit("text/x-kotlin");
            reveal_strlit("text-x-kotlin");
            assert(mime_icon(i) =~= dashed(mime_key(i)));
        },
        428 => {
            reveal_strlit("text/x-less");
            reveal_strlit("text-x-less");
            assert(mime_icon(i) =~= dashed(mime_key(i)));
        },
        429 => {
            reveal_strlit("text/x-log");
            reveal_strlit("text-x-log");
            assert(mime_icon(i) =~= dashed(mime_key(i)));
        },
        430 => {
            reveal_strlit("text/x-lua");
            reveal_strlit("text-x-lua");
            assert(mime_icon(i) =~= dashed(mime_key(i)));
        },
        432 => {
            reveal_strlit("text/x-makefile");
            reveal_strlit("text-x-makefile");
            assert(mime_icon(i) =~= dashed(mime_key(i)));
        },
        433 => {
            reveal_strlit("text/x-markdown");
            reveal_strlit("text-x-markdown");
            assert(mime_icon(i) =~= dashed(mime_key(i)));
        },
        434 => {
            reveal_strlit("text/x-maxima-out");
            reveal_strlit("text-x-maxima-out");
            assert(mime_icon(i) =~= dashed(mime_key(i)));
        },
        435 => {
            reveal_strlit("text/x-maximasession");
            reveal_strlit("text-x-maximasession");
            assert(mime_icon(i) =~= dashed(mime_key(i)));
        },
        436 => {
            reveal_strlit("text/x-meson");
            reveal_strlit("text-x-meson");
            assert(mime_icon(i) =~= dashed(mime_key(i)));
        },
        437 => {
            reveal_strlit("text/x-ocaml");
            reveal_strlit("text-x-ocaml");
            assert(mime_icon(i) =~= dashed(mime_key(i)));
        },
        438 => {
            reveal_strlit("text/x-octave");
            reveal_strlit("text-x-octave");
            assert(mime_icon(i) =~= dashed(mime_key(i)));
        },
        439 => {
            reveal_strlit("text/x-patch");
            reveal_strlit("text-x-patch");
            assert(mime_icon(i) =~= dashed(mime_key(i)));
        },
        _ => {},
    }
}

proof fn lemma_icons_dashed_440(i: usize)
    requires
        440 <= i < 466,
        !icon_named_otherwise(i),
    ensures
        mime_icon(i) == dashed(mime_key(i)),
{
    match i {
        440 => {
            reveal_strlit("text/x-php");
            reveal_strlit("text-x-php");
            assert(mime_icon(i) =~= dashed(mime_key(i)));
        },
        441 => {
            reveal_strlit("text/x-pkgbuild");
            reveal_strlit("text-x-pkgbuild");
            assert(mime_icon(i) =~= dashed(mime_key(i)));
        },
        442 => {
            reveal_strlit("text/x-preview");
            reveal_strlit("text-x-preview");
            assert(mime_icon(i) =~= dashed(mime_key(i)));
        },
        443 => {
            reveal_strlit("text/x-python");
            reveal_strlit("text-x-python");
            assert(mime_icon(i) =~= dashed(mime_key(i)));
        },
        444 => {
            reveal_strlit("text/x-python3");
            reveal_strlit("text-x-python3");
            assert(mime_icon(i) =~= dashed(mime_key(i)));
        },
        445 => {
            reveal_strlit("text/x-r");
            reveal_strlit("text-x-r");
            assert(mime_icon(i) =~= dashed(mime_key(i)));
        },
        446 => {
            reveal_strlit("text/x-r-markdown");
            reveal_strlit("text-x-r-markdown");
            assert(mime_icon(i) =~= dashed(mime_key(i)));
        },
        447 => {
            reveal_strlit("text/x-r-source");
            reveal_strlit("text-x-r-source");
            assert(mime_icon(i) =~= dashed(mime_key(i)));
        },
        448 => {
            reveal_strlit("text/x-ruby");
            reveal_strlit("text-x-ruby");
            assert(mime_icon(i) =~= dashed(mime_key(i)));
        },
        449 => {
            reveal_strlit("text/x-sass");
            reveal_strlit("text-x-sass");
            assert(mime_icon(i) =~= dashed(mime_key(i)));
        },
        450 => {
            reveal_strlit("text/x-script");
            reveal_strlit("text-x-script");
            assert(mime_icon(i) =~= dashed(mime_key(i)));
        },
        451 => {
            reveal_strlit("text/x-scss");
            reveal_strlit("text-x-scss");
            assert(mime_icon(i) =~= dashed(mime_key(i)));
        },
        452 => {
            reveal_strlit("text/x-sql");
            reveal_strlit("text-x-sql");
            assert(mime_icon(i) =~= dashed(mime_key(i)));
        },
        453 => {
            reveal_strlit("text/x-ssa");
            reveal_strlit("text-x-ssa");
            assert(mime_icon(i) =~= dashed(mime_key(i)));
        },
        454 => {
            reveal_strlit("text/x-stex");
            reveal_strlit("text-x-stex");
            assert(mime_icon(i) =~= dashed(mime_key(i)));
        },
        455 => {
            reveal_strlit("text/x-tex");
            reveal_strlit("text-x-tex");
            assert(mime_icon(i) =~= dashed(mime_key(i)));
        },
        456 => {
            reveal_strlit("text/x-texinfo");
            reveal_strlit("text-x-texinfo");
            assert(mime_icon(i) =~= dashed(mime_key(i)));
        },
        457 => {
            reveal_strlit("text/x-typescript");
            reveal_strlit("text-x-typescript");
            assert(mime_icon(i) =~= dashed(mime_key(i)));
        },
        458 => {
            reveal_strlit("text/x-typst");
            reveal_strlit("text-x-typst");
            assert(mime_icon(i) =~= dashed(mime_key(i)));
        },
        459 => {
            reveal_strlit("text/x-vala");
            reveal_strlit("text-x-vala");
            assert(mime_icon(i) =~= dashed(mime_key(i)));
        },
        460 => {
            reveal_strlit("text/x-yaml");
            reveal_strlit("text-x-yaml");
            assert(mime_icon(i) =~= dashed(mime_key(i)));
        },
        461 => {
            reveal_strlit("text/x-zig");
            reveal_strlit("text-x-zig");
            assert(mime_icon(i) =~= dashed(mime_key(i)));
        },
        462 => {
            reveal_strlit("text/xml");
            reveal_strlit("text-xml");
            assert(mime_icon(i) =~= dashed(mime_key(i)));
        },
        463 => {
            reveal_strlit("text/yaml");
            reveal_strlit("text-yaml");
            assert(mime_icon(i) =~= dashed(mime_key(i)));
        },
        464 => {
            reveal_strlit("video/x-generic");
            reveal_strlit("video-x-generic");
            assert(mime_icon(i) =~= dashed(mime_key(i)));
        },
        465 => {
            reveal_strlit("x-content/ebook-reader");
            reveal_strlit("x-content-ebook-reader");
            assert(mime_icon(i) =~= dashed(mime_key(i)));
        },
        _ => {},
    }
}

/// Every icon of the table is named after its MIME type, with each `/`
/// replaced by `-` (`text/x-markdown` has the icon `text-x-markdown`), but
/// for the entries that `icon_named_otherwise` lists.
pub proof fn lemma_icon_is_dashed_type(i: usize)
    requires
        i < MIME_TABLE_LEN,
        !icon_named_otherwise(i),
    ensures
        mime_icon(i) == dashed(mime_key(i)),
{
    if i < 40 {
        lemma_icons_dashed_0(i);
    } else if i < 80 {
        lemma_icons_dashed_40(i);
    } else if i < 120 {
        lemma_icons_dashed_80(i);
    } else if i < 160 {
        lemma_icons_dashed_120(i);
    } else if i < 200 {
        lemma_icons_dashed_160(i);
    } else if i < 240 {
        lemma_icons_dashed_200(i);
    } else if i < 280 {
        lemma_icons_dashed_240(i);
    } else if i < 320 {
        lemma_icons_dashed_280(i);
    } else if i < 360 {
        lemma_icons_dashed_320(i);
    } else if i < 400 {
        lemma_icons_dashed_360(i);
    } else if i < 440 {
        lemma_icons_dashed_400(i);
    } else if i < 466 {
        lemma_icons_dashed_440(i);
    }
}

} // verus!
